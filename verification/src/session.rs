//! The session: the synchronous call/response bridge over the message
//! stream, plus the derived navigation state written by the event-listening
//! activity.
//!
//! A [`Session`] is modeled from the caller's side of the wire: `replies`
//! are the replies the transport will hand back, in arrival order, one per
//! command sent; `events` are the navigation-lifecycle events the listening
//! activity will observe, in order, while a caller polls; `log` records
//! every command sent.  Exactly one caller drives the session at a time
//! (every operation takes `&mut`), so a command and its reply can never be
//! torn apart by another caller: each contract extends `log` by one
//! contiguous block.

use vstd::prelude::*;

use crate::protocol::{call_res_view, CmdV, Command, Error, NavEvent, Reply, ReplyV, RespV, ErrV, Response};

verus! {

/// The session state the contracts speak of: the navigation flag, the
/// replies still to arrive, the pending lifecycle events, the commands sent
/// so far, and the poll budget for each navigation wait.
#[verifier::ext_equal]
pub struct SessionV {
    pub navigating: bool,
    pub replies: Seq<ReplyV>,
    pub events: Seq<NavEvent>,
    pub log: Seq<CmdV>,
    pub deadline: u64,
}

/// The caller's side of one protocol connection.
pub struct Session {
    /// Whether a navigation is currently in progress, as derived from the
    /// lifecycle events observed so far.  Initially false (idle).
    pub navigating: bool,
    /// Replies the transport will deliver, in order, one per command.
    pub replies: Vec<Reply>,
    /// Lifecycle events the listening activity will observe, in order.
    pub events: Vec<NavEvent>,
    /// Every command sent through this session, oldest first.
    pub log: Vec<Command>,
    /// How many polls a navigation wait may spend on each phase before it
    /// gives up with a timeout error.
    pub deadline: u64,
}

impl View for Session {
    type V = SessionV;

    open spec fn view(&self) -> SessionV {
        SessionV {
            navigating: self.navigating,
            replies: self.replies@.map_values(|r: Reply| r@),
            events: self.events@,
            log: self.log@.map_values(|c: Command| c@),
            deadline: self.deadline,
        }
    }
}

/// The outcome a caller sees for one reply from the wire.
pub open spec fn reply_to_result(r: ReplyV) -> Result<RespV, ErrV> {
    match r {
        ReplyV::Value(resp) => Ok(resp),
        ReplyV::ProtocolError => Err(ErrV::Protocol),
        ReplyV::Disconnected => Err(ErrV::Transport),
    }
}

/// Consume one reply: an exhausted stream means the connection is gone.
pub open spec fn step_replies(replies: Seq<ReplyV>) -> (Result<RespV, ErrV>, Seq<ReplyV>) {
    if replies.len() == 0 {
        (Err(ErrV::Transport), replies)
    } else {
        (reply_to_result(replies[0]), replies.drop_first())
    }
}

/// One synchronous call: send the command, then block until its reply
/// arrives.  The command is on the wire either way, so it is logged even
/// when the reply reports a failure.
pub open spec fn call_step(s: SessionV, c: CmdV) -> (SessionV, Result<RespV, ErrV>) {
    let (r, rest) = step_replies(s.replies);
    (SessionV { replies: rest, log: s.log.push(c), ..s }, r)
}

/// The navigation state machine: an observed start puts the session into
/// the navigating state, an observed finish returns it to idle.
pub open spec fn nav_after(nav: bool, ev: NavEvent) -> bool {
    match ev {
        NavEvent::Started => true,
        NavEvent::Finished => false,
    }
}

/// Poll the navigation flag until it equals `target`, delivering at most
/// one pending lifecycle event per poll and spending at most `fuel` polls.
/// Returns the flag, the events left undelivered, and whether the target
/// state was reached before the budget ran out.
pub open spec fn wait_run(nav: bool, events: Seq<NavEvent>, target: bool, fuel: u64) -> (
    bool,
    Seq<NavEvent>,
    bool,
)
    decreases fuel,
{
    if nav == target {
        (nav, events, true)
    } else if fuel == 0 {
        (nav, events, false)
    } else if events.len() == 0 {
        wait_run(nav, events, target, (fuel - 1) as u64)
    } else {
        wait_run(nav_after(nav, events[0]), events.drop_first(), target, (fuel - 1) as u64)
    }
}

/// A wait that reports success really did observe the target state: when
/// the third component of [`wait_run`] is true, the flag it leaves behind
/// equals the target.
pub proof fn lemma_wait_run_reached(nav: bool, events: Seq<NavEvent>, target: bool, fuel: u64)
    ensures
        wait_run(nav, events, target, fuel).2 ==> wait_run(nav, events, target, fuel).0 == target,
    decreases fuel,
{
    if nav == target {
    } else if fuel == 0 {
    } else if events.len() == 0 {
        lemma_wait_run_reached(nav, events, target, (fuel - 1) as u64);
    } else {
        lemma_wait_run_reached(nav_after(nav, events[0]), events.drop_first(), target, (fuel - 1) as u64);
    }
}

impl Session {
    /// A fresh session: idle, nothing sent yet, with the given scripted
    /// replies and pending lifecycle events and the given per-phase poll
    /// budget for navigation waits.
    pub fn new(replies: Vec<Reply>, events: Vec<NavEvent>, deadline: u64) -> (s: Session)
        ensures
            !s@.navigating,
            s@.replies == replies@.map_values(|r: Reply| r@),
            s@.events == events@,
            s@.log == Seq::<CmdV>::empty(),
            s@.deadline == deadline,
    {
        let s = Session { navigating: false, replies, events, log: Vec::new(), deadline };
        proof {
            assert(s@.log =~= Seq::<CmdV>::empty());
        }
        s
    }

    /// Non-blocking read of the derived navigation state.
    pub fn is_navigating(&self) -> (r: bool)
        ensures
            r == self@.navigating,
    {
        self.navigating
    }

    /// Entry point of the event-listening activity: fold one observed
    /// lifecycle event into the derived navigation state.
    pub fn deliver_event(&mut self, ev: NavEvent)
        ensures
            final(self)@ == (SessionV { navigating: nav_after(old(self)@.navigating, ev), ..old(self)@ }),
    {
        self.navigating = match ev {
                NavEvent::Started => true,
                NavEvent::Finished => false,
            };
    }

    /// Send one command and block until its reply arrives.  The reply
    /// stream being exhausted means the connection is lost.
    pub fn call(&mut self, cmd: Command) -> (r: Result<Response, Error>)
        ensures
            final(self)@ == call_step(old(self)@, cmd@).0,
            call_res_view(r) == call_step(old(self)@, cmd@).1,
    {
        let ghost cv = cmd@;
        self.log.push(cmd);
        proof {
            assert(self.log@.map_values(|c: Command| c@) =~= old(self).log@.map_values(
                |c: Command| c@,
            ).push(cv));
        }
        if self.replies.len() == 0 {
            proof {
                assert(self@ =~= call_step(old(self)@, cv).0);
            }
            Err(Error::Transport)
        } else {
            let rep = self.replies.remove(0);
            proof {
                assert(self.replies@.map_values(|r: Reply| r@) =~= old(self).replies@.map_values(
                    |r: Reply| r@,
                ).drop_first());
                assert(rep@ == old(self)@.replies[0]);
                assert(self@ =~= call_step(old(self)@, cv).0);
            }
            match rep {
                Reply::Value(resp) => Ok(resp),
                Reply::ProtocolError => Err(Error::Protocol),
                Reply::Disconnected => Err(Error::Transport),
            }
        }
    }

    /// Deliver the next pending lifecycle event, if one is pending.
    fn step_event(&mut self)
        ensures
            old(self)@.events.len() == 0 ==> final(self)@ == old(self)@,
            old(self)@.events.len() > 0 ==> final(self)@ == (SessionV {
                navigating: nav_after(old(self)@.navigating, old(self)@.events[0]),
                events: old(self)@.events.drop_first(),
                ..old(self)@
            }),
    {
        if self.events.len() > 0 {
            let ev = self.events.remove(0);
            self.navigating = match ev {
                NavEvent::Started => true,
                NavEvent::Finished => false,
            };
            proof {
                assert(self.events@ =~= old(self).events@.drop_first());
                assert(self@ =~= (SessionV {
                    navigating: nav_after(old(self)@.navigating, old(self)@.events[0]),
                    events: old(self)@.events.drop_first(),
                    ..old(self)@
                }));
            }
        }
    }

    /// Poll until the navigation flag equals `target`, delivering pending
    /// lifecycle events as the listening activity observes them, for at
    /// most `deadline` polls.  Returns whether the target state was
    /// reached.
    pub(crate) fn wait_for(&mut self, target: bool) -> (ok: bool)
        ensures
            final(self)@ == (SessionV {
                navigating: wait_run(old(self)@.navigating, old(self)@.events, target, old(self)@.deadline).0,
                events: wait_run(old(self)@.navigating, old(self)@.events, target, old(self)@.deadline).1,
                ..old(self)@
            }),
            ok == wait_run(old(self)@.navigating, old(self)@.events, target, old(self)@.deadline).2,
    {
        let mut fuel: u64 = self.deadline;
        loop
            invariant
                self@.replies == old(self)@.replies,
                self@.log == old(self)@.log,
                self@.deadline == old(self)@.deadline,
                wait_run(old(self)@.navigating, old(self)@.events, target, old(self)@.deadline)
                    == wait_run(self@.navigating, self@.events, target, fuel),
            decreases fuel,
        {
            if self.navigating == target {
                proof {
                    assert(wait_run(self@.navigating, self@.events, target, fuel) == (
                        self@.navigating,
                        self@.events,
                        true,
                    ));
                    assert(self@ =~= (SessionV {
                        navigating: wait_run(
                            old(self)@.navigating,
                            old(self)@.events,
                            target,
                            old(self)@.deadline,
                        ).0,
                        events: wait_run(
                            old(self)@.navigating,
                            old(self)@.events,
                            target,
                            old(self)@.deadline,
                        ).1,
                        ..old(self)@
                    }));
                }
                return true;
            }
            if fuel == 0 {
                proof {
                    assert(wait_run(self@.navigating, self@.events, target, fuel) == (
                        self@.navigating,
                        self@.events,
                        false,
                    ));
                    assert(self@ =~= (SessionV {
                        navigating: wait_run(
                            old(self)@.navigating,
                            old(self)@.events,
                            target,
                            old(self)@.deadline,
                        ).0,
                        events: wait_run(
                            old(self)@.navigating,
                            old(self)@.events,
                            target,
                            old(self)@.deadline,
                        ).1,
                        ..old(self)@
                    }));
                }
                return false;
            }
            self.step_event();
            fuel = fuel - 1;
        }
    }
}

} // verus!
