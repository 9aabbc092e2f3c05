//! The controller façade: the public operations a caller drives a page
//! with.  Each operation is a short sequence of session calls, and its
//! contract is exactly the corresponding step function over the session
//! state: which commands go on the wire, which replies are consumed, and
//! what the caller gets back, for every script of replies and events.

use vstd::prelude::*;

use crate::keys::{get_key_definition, key_def_of, KeyDefV, KeyDefinition};
use crate::protocol::{
    node_res_view, opt_str_view, unit_res_view, CmdV, Command, ErrV, Error, KeyAction,
    MouseAction, NoElementFound, Node, Point, RespV, Response,
};
use crate::session::{call_step, wait_run, Session, SessionV};

verus! {

/// How deep a node description request asks the target to go: deep enough
/// for any practical subtree, but finite.
pub const DESCRIBE_DEPTH: u64 = 100;

/// The controller's handle on one page: it owns the session the page is
/// driven through.
pub struct Tab {
    pub page_session: Session,
}

/// A resolved reference to a DOM node: its stable backend identity and the
/// handle into the target's live object heap.  It borrows the session it
/// was resolved through only for the duration of each later operation, and
/// holds no reference of its own.
#[derive(Clone, Debug)]
pub struct Element {
    pub remote_object_id: String,
    pub backend_node_id: u64,
}

/// Mathematical image of an [`Element`].
pub struct ElementV {
    pub remote_object_id: Seq<char>,
    pub backend_node_id: u64,
}

impl View for Element {
    type V = ElementV;

    open spec fn view(&self) -> ElementV {
        ElementV { remote_object_id: self.remote_object_id@, backend_node_id: self.backend_node_id }
    }
}

/// The image of an element-resolution outcome.
pub open spec fn elem_res_view(r: Result<Element, Error>) -> Result<ElementV, ErrV> {
    match r {
        Ok(el) => Ok(el@),
        Err(e) => Err(e@),
    }
}

/// What `navigate_to` does: send the navigate command, then wait for the
/// derived state to show a navigation starting and then finishing, each
/// phase bounded by the session's poll budget.
pub open spec fn navigate_step(s: SessionV, url: Seq<char>) -> (SessionV, Result<(), ErrV>) {
    let (s1, r1) = call_step(s, CmdV::Navigate { url });
    match r1 {
        Err(e) => (s1, Err(e)),
        Ok(resp) => {
            let w1 = wait_run(s1.navigating, s1.events, true, s1.deadline);
            let s2 = SessionV { navigating: w1.0, events: w1.1, ..s1 };
            if !w1.2 {
                (s2, Err(ErrV::NavigationTimeout))
            } else {
                let w2 = wait_run(s2.navigating, s2.events, false, s2.deadline);
                let s3 = SessionV { navigating: w2.0, events: w2.1, ..s2 };
                if !w2.2 {
                    (s3, Err(ErrV::NavigationTimeout))
                } else {
                    (s3, Ok(()))
                }
            }
        },
    }
}

/// What `describe_node` does: one bounded-depth describe call, whose reply
/// must carry a node description.
pub open spec fn describe_step(s: SessionV, node_id: u64) -> (SessionV, Result<Node, ErrV>) {
    let (s1, r1) = call_step(s, CmdV::DescribeNode { node_id, depth: DESCRIBE_DEPTH });
    match r1 {
        Err(e) => (s1, Err(e)),
        Ok(resp) => match resp {
            RespV::Description { node } => (s1, Ok(node)),
            _ => (s1, Err(ErrV::Transport)),
        },
    }
}

/// What `find_element` does: fetch the document root, query it with the
/// selector, describe the matched node, and resolve its backend identity
/// to a live remote object.  A query answer of node id zero means no match
/// and stops the pipeline with the not-found error; a resolvable node that
/// yields no usable identity is an internal-invariant failure.
pub open spec fn find_step(s: SessionV, selector: Seq<char>) -> (SessionV, Result<ElementV, ErrV>) {
    let (s1, r1) = call_step(s, CmdV::GetDocument { depth: 0, pierce: false });
    match r1 {
        Err(e) => (s1, Err(e)),
        Ok(resp1) => match resp1 {
            RespV::Document { root_node_id } => {
                let (s2, r2) = call_step(
                    s1,
                    CmdV::QuerySelector { node_id: root_node_id, selector },
                );
                match r2 {
                    Err(e) => (s2, Err(e)),
                    Ok(resp2) => match resp2 {
                        RespV::QueryResult { node_id } => {
                            if node_id == 0 {
                                (s2, Err(ErrV::NotFound { selector }))
                            } else {
                                let (s3, r3) = describe_step(s2, node_id);
                                match r3 {
                                    Err(e) => (s3, Err(e)),
                                    Ok(node) => {
                                        if node.backend_node_id == 0 {
                                            (s3, Err(ErrV::InternalInvariant))
                                        } else {
                                            resolve_tail(s3, node.backend_node_id)
                                        }
                                    },
                                }
                            }
                        },
                        _ => (s2, Err(ErrV::Transport)),
                    },
                }
            },
            _ => (s1, Err(ErrV::Transport)),
        },
    }
}

/// The last stage of element resolution: resolve a backend node id to a
/// remote object and insist on a non-empty object id.
pub open spec fn resolve_tail(s: SessionV, backend_node_id: u64) -> (
    SessionV,
    Result<ElementV, ErrV>,
) {
    let (s1, r1) = call_step(s, CmdV::ResolveNode { backend_node_id });
    match r1 {
        Err(e) => (s1, Err(e)),
        Ok(resp) => match resp {
            RespV::Resolved { object_id } => match object_id {
                Some(oid) => if oid.len() == 0 {
                    (s1, Err(ErrV::InternalInvariant))
                } else {
                    (s1, Ok(ElementV { remote_object_id: oid, backend_node_id }))
                },
                None => (s1, Err(ErrV::InternalInvariant)),
            },
            _ => (s1, Err(ErrV::Transport)),
        },
    }
}

/// The key-down command a key definition produces.
pub open spec fn key_down_cmd(d: KeyDefV) -> CmdV {
    CmdV::DispatchKeyEvent { action: KeyAction::Down, key: d.key, key_code: d.key_code, text: d.text }
}

/// The key-up command a key definition produces.
pub open spec fn key_up_cmd(d: KeyDefV) -> CmdV {
    CmdV::DispatchKeyEvent { action: KeyAction::Up, key: d.key, key_code: d.key_code, text: d.text }
}

/// What pressing a resolved key does: key-down, then key-up, aborting on
/// the first failed call.
pub open spec fn press_def_step(s: SessionV, d: KeyDefV) -> (SessionV, Result<(), ErrV>) {
    let (s1, r1) = call_step(s, key_down_cmd(d));
    match r1 {
        Err(e) => (s1, Err(e)),
        Ok(resp1) => {
            let (s2, r2) = call_step(s1, key_up_cmd(d));
            match r2 {
                Err(e) => (s2, Err(e)),
                Ok(resp2) => (s2, Ok(())),
            }
        },
    }
}

/// What `press_key` does: an unknown name fails before anything is sent;
/// a known one presses its definition.
pub open spec fn press_step(s: SessionV, name: Seq<char>) -> (SessionV, Result<(), ErrV>) {
    match key_def_of(name) {
        None => (s, Err(ErrV::UnknownKey { key: name })),
        Some(d) => press_def_step(s, d),
    }
}

/// What `type_str` does: press each character in order, left to right,
/// stopping at the first failure.
pub open spec fn type_step(s: SessionV, text: Seq<char>) -> (SessionV, Result<(), ErrV>)
    decreases text.len(),
{
    if text.len() == 0 {
        (s, Ok(()))
    } else {
        let (s1, r1) = press_step(s, seq![text[0]]);
        match r1 {
            Err(e) => (s1, Err(e)),
            Ok(resp) => type_step(s1, text.drop_first()),
        }
    }
}

/// The mouse command one phase of a click produces.
pub open spec fn mouse_cmd(action: MouseAction, p: Point) -> CmdV {
    CmdV::DispatchMouseEvent { action, x: p.x, y: p.y }
}

/// What `click_point` does: move, press, release, all at the same point,
/// aborting on the first failed call.
pub open spec fn click_step(s: SessionV, p: Point) -> (SessionV, Result<(), ErrV>) {
    let (s1, r1) = call_step(s, mouse_cmd(MouseAction::Moved, p));
    match r1 {
        Err(e) => (s1, Err(e)),
        Ok(resp1) => {
            let (s2, r2) = call_step(s1, mouse_cmd(MouseAction::Pressed, p));
            match r2 {
                Err(e) => (s2, Err(e)),
                Ok(resp2) => {
                    let (s3, r3) = call_step(s2, mouse_cmd(MouseAction::Released, p));
                    match r3 {
                        Err(e) => (s3, Err(e)),
                        Ok(resp3) => (s3, Ok(())),
                    }
                },
            }
        },
    }
}

/// Copy an optional text payload.
fn clone_opt_text(o: &Option<String>) -> (r: Option<String>)
    ensures
        opt_str_view(r) == opt_str_view(*o),
{
    match o {
        Some(s) => Some(s.clone()),
        None => None,
    }
}

impl Tab {
    /// Navigate the page to `url` and block until the navigation both
    /// starts and finishes, as observed through the lifecycle events.  If
    /// either transition fails to appear within the session's poll budget,
    /// the result is the timeout error instead of an unbounded wait.  On
    /// success the session is idle again.
    pub fn navigate_to(&mut self, url: &str) -> (r: Result<(), Error>)
        ensures
            final(self).page_session@ == navigate_step(old(self).page_session@, url@).0,
            unit_res_view(r) == navigate_step(old(self).page_session@, url@).1,
            r matches Ok(u) ==> !final(self).page_session@.navigating,
    {
        let nav_result = self.page_session.call(Command::Navigate { url: url.to_owned() });
        match nav_result {
            Err(e) => {
                return Err(e);
            },
            Ok(_) => {},
        }
        if !self.page_session.wait_for(true) {
            return Err(Error::NavigationTimeout);
        }
        let ghost mid = self.page_session@;
        if !self.page_session.wait_for(false) {
            return Err(Error::NavigationTimeout);
        }
        proof {
            crate::session::lemma_wait_run_reached(mid.navigating, mid.events, false, mid.deadline);
        }
        Ok(())
    }

    /// Resolve a selector to an element: document root, query, describe,
    /// resolve.  Fails with the not-found error, carrying the selector,
    /// exactly when the query answers with the no-match sentinel; on
    /// success both identities of the handle are usable (non-sentinel).
    pub fn find_element(&mut self, selector: &str) -> (r: Result<Element, Error>)
        ensures
            final(self).page_session@ == find_step(old(self).page_session@, selector@).0,
            elem_res_view(r) == find_step(old(self).page_session@, selector@).1,
            r matches Ok(el) ==> el.backend_node_id != 0 && el.remote_object_id@.len() > 0,
    {
        let doc = self.page_session.call(Command::GetDocument { depth: 0, pierce: false });
        let root_node_id = match doc {
            Err(e) => {
                return Err(e);
            },
            Ok(Response::Document { root_node_id }) => root_node_id,
            Ok(_) => {
                return Err(Error::Transport);
            },
        };
        let query = self.page_session.call(
            Command::QuerySelector { node_id: root_node_id, selector: selector.to_owned() },
        );
        let node_id = match query {
            Err(e) => {
                return Err(e);
            },
            Ok(Response::QueryResult { node_id }) => node_id,
            Ok(_) => {
                return Err(Error::Transport);
            },
        };
        if node_id == 0 {
            return Err(Error::NotFound(NoElementFound { selector: selector.to_owned() }));
        }
        let node = match self.describe_node(node_id) {
            Err(e) => {
                return Err(e);
            },
            Ok(node) => node,
        };
        if node.backend_node_id == 0 {
            return Err(Error::InternalInvariant);
        }
        let resolved = self.page_session.call(
            Command::ResolveNode { backend_node_id: node.backend_node_id },
        );
        let object_id = match resolved {
            Err(e) => {
                return Err(e);
            },
            Ok(Response::Resolved { object_id }) => object_id,
            Ok(_) => {
                return Err(Error::Transport);
            },
        };
        match object_id {
            None => Err(Error::InternalInvariant),
            Some(oid) => {
                if oid.as_str().is_empty() {
                    return Err(Error::InternalInvariant);
                }
                Ok(Element { remote_object_id: oid, backend_node_id: node.backend_node_id })
            },
        }
    }

    /// Ask the target for a bounded-depth description of a node.
    pub fn describe_node(&mut self, node_id: u64) -> (r: Result<Node, Error>)
        ensures
            final(self).page_session@ == describe_step(old(self).page_session@, node_id).0,
            node_res_view(r) == describe_step(old(self).page_session@, node_id).1,
    {
        let resp = self.page_session.call(Command::DescribeNode { node_id, depth: DESCRIBE_DEPTH });
        match resp {
            Err(e) => Err(e),
            Ok(Response::Description { node }) => Ok(node),
            Ok(_) => Err(Error::Transport),
        }
    }

    /// Type a string by pressing each of its characters in order, left to
    /// right, stopping at the first character that fails.  An empty string
    /// sends nothing.
    pub fn type_str(&mut self, string_to_type: &str) -> (r: Result<(), Error>)
        ensures
            final(self).page_session@ == type_step(old(self).page_session@, string_to_type@).0,
            unit_res_view(r) == type_step(old(self).page_session@, string_to_type@).1,
    {
        let len = string_to_type.unicode_len();
        proof {
            assert(string_to_type@.skip(0) =~= string_to_type@);
        }
        let mut i: usize = 0;
        while i < len
            invariant
                i <= len,
                len == string_to_type@.len(),
                type_step(old(self).page_session@, string_to_type@) == type_step(
                    self.page_session@,
                    string_to_type@.skip(i as int),
                ),
            decreases len - i,
        {
            let c = string_to_type.substring_char(i, i + 1);
            proof {
                assert(c@ =~= seq![string_to_type@[i as int]]);
                assert(string_to_type@.skip(i as int)[0] == string_to_type@[i as int]);
                assert(string_to_type@.skip(i as int).drop_first() =~= string_to_type@.skip(
                    i as int + 1,
                ));
            }
            match self.press_key(c) {
                Err(e) => {
                    return Err(e);
                },
                Ok(_) => {},
            }
            i = i + 1;
        }
        proof {
            assert(string_to_type@.skip(len as int) =~= Seq::<char>::empty());
        }
        Ok(())
    }

    /// Press one key by name: look it up in the catalog — an unknown name
    /// fails, naming the key, before anything is sent — then dispatch
    /// key-down and key-up carrying the resolved definition.
    pub fn press_key(&mut self, key: &str) -> (r: Result<(), Error>)
        ensures
            final(self).page_session@ == press_step(old(self).page_session@, key@).0,
            unit_res_view(r) == press_step(old(self).page_session@, key@).1,
            key_def_of(key@) is None ==> final(self).page_session@ == old(self).page_session@,
    {
        let definition = match get_key_definition(key) {
            Err(e) => {
                return Err(e);
            },
            Ok(d) => d,
        };
        self.press_def(&definition)
    }

    /// Dispatch the key-down / key-up pair for a resolved key definition.
    fn press_def(&mut self, definition: &KeyDefinition) -> (r: Result<(), Error>)
        ensures
            final(self).page_session@ == press_def_step(old(self).page_session@, definition@).0,
            unit_res_view(r) == press_def_step(old(self).page_session@, definition@).1,
    {
        let down = Command::DispatchKeyEvent {
            action: KeyAction::Down,
            key: definition.key.clone(),
            key_code: definition.key_code,
            text: clone_opt_text(&definition.text),
        };
        match self.page_session.call(down) {
            Err(e) => {
                return Err(e);
            },
            Ok(_) => {},
        }
        let up = Command::DispatchKeyEvent {
            action: KeyAction::Up,
            key: definition.key.clone(),
            key_code: definition.key_code,
            text: clone_opt_text(&definition.text),
        };
        match self.page_session.call(up) {
            Err(e) => {
                return Err(e);
            },
            Ok(_) => {},
        }
        Ok(())
    }

    /// Simulate a full click at a point: move, press, release, each call
    /// carrying the same coordinates, aborting on the first failure.
    pub fn click_point(&mut self, point: Point) -> (r: Result<(), Error>)
        ensures
            final(self).page_session@ == click_step(old(self).page_session@, point).0,
            unit_res_view(r) == click_step(old(self).page_session@, point).1,
    {
        let moved = Command::DispatchMouseEvent {
            action: MouseAction::Moved,
            x: point.x,
            y: point.y,
        };
        match self.page_session.call(moved) {
            Err(e) => {
                return Err(e);
            },
            Ok(_) => {},
        }
        let pressed = Command::DispatchMouseEvent {
            action: MouseAction::Pressed,
            x: point.x,
            y: point.y,
        };
        match self.page_session.call(pressed) {
            Err(e) => {
                return Err(e);
            },
            Ok(_) => {},
        }
        let released = Command::DispatchMouseEvent {
            action: MouseAction::Released,
            x: point.x,
            y: point.y,
        };
        match self.page_session.call(released) {
            Err(e) => {
                return Err(e);
            },
            Ok(_) => {},
        }
        Ok(())
    }
}

} // verus!
