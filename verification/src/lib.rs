//! A session bridge for a remote, message-oriented debugging protocol.
//!
//! A controller issues commands (navigate, query the DOM, dispatch input)
//! over a bidirectional wire and must pair each command with its reply while
//! an independent event stream updates derived state (whether the page is
//! currently navigating).  This crate models that exchange: a [`session::Session`]
//! holds the replies still to arrive, the navigation-lifecycle events the
//! listening activity will observe, and the log of commands sent so far, and
//! every operation of the [`tab::Tab`] façade is specified exactly as a step
//! function over that state.

pub mod keys;
pub mod laws;
pub mod protocol;
pub mod session;
pub mod tab;
