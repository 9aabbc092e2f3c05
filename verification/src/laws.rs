//! The laws of the bridge: what the operations' step functions guarantee
//! across whole call sequences — which commands reach the wire, in what
//! order, and when an operation is owed success.

use vstd::prelude::*;

use crate::keys::{char_def, key_def_of, printable, KeyDefV};
use crate::protocol::{CmdV, ErrV, MouseAction, NavEvent, Point, ReplyV, RespV};
use crate::session::{nav_after, wait_run, SessionV};
use crate::tab::{
    click_step, find_step, key_down_cmd, key_up_cmd, mouse_cmd, navigate_step, press_step,
    type_step,
};

verus! {

/// The two commands one resolved key press puts on the wire.
pub open spec fn press_cmds(d: KeyDefV) -> Seq<CmdV> {
    seq![key_down_cmd(d), key_up_cmd(d)]
}

/// The commands typing a string puts on the wire when every character is
/// in the catalog: one key-down / key-up pair per character, in text
/// order.
pub open spec fn type_cmds(text: Seq<char>) -> Seq<CmdV>
    decreases text.len(),
{
    if text.len() == 0 {
        Seq::empty()
    } else {
        match char_def(text[0]) {
            Some(d) => press_cmds(d) + type_cmds(text.drop_first()),
            None => Seq::empty(),
        }
    }
}

/// A selector that matches nothing makes `find_element` fail with the
/// not-found error carrying that selector, after exactly two commands:
/// the root-document fetch and the query — nothing further is sent, and
/// only those two replies are consumed.
pub proof fn lemma_find_element_no_match(s: SessionV, selector: Seq<char>, root: u64)
    requires
        s.replies.len() >= 2,
        s.replies[0] == ReplyV::Value(RespV::Document { root_node_id: root }),
        s.replies[1] == ReplyV::Value(RespV::QueryResult { node_id: 0 }),
    ensures
        find_step(s, selector).1 == Err::<crate::tab::ElementV, ErrV>(ErrV::NotFound { selector }),
        find_step(s, selector).0.log == s.log + seq![
            CmdV::GetDocument { depth: 0, pierce: false },
            CmdV::QuerySelector { node_id: root, selector },
        ],
        find_step(s, selector).0.replies == s.replies.skip(2),
        find_step(s, selector).0.navigating == s.navigating,
        find_step(s, selector).0.events == s.events,
{
    assert(find_step(s, selector).0.log =~= s.log + seq![
        CmdV::GetDocument { depth: 0, pierce: false },
        CmdV::QuerySelector { node_id: root, selector },
    ]);
    assert(find_step(s, selector).0.replies =~= s.replies.skip(2));
}

/// An unknown key name makes `press_key` fail with the unknown-key error
/// carrying that name, and the session — in particular the log of sent
/// commands — is left exactly as it was.
pub proof fn lemma_press_key_unknown(s: SessionV, name: Seq<char>)
    requires
        key_def_of(name) is None,
    ensures
        press_step(s, name) == (s, Err::<(), ErrV>(ErrV::UnknownKey { key: name })),
{
}

/// A known key name whose two replies both arrive presses cleanly: exactly
/// the key-down and key-up commands of its definition go out, in that
/// order, two replies are consumed, and the operation succeeds.
pub proof fn lemma_press_key_down_then_up(s: SessionV, name: Seq<char>, d: KeyDefV)
    requires
        key_def_of(name) == Some(d),
        s.replies.len() >= 2,
        s.replies[0] is Value,
        s.replies[1] is Value,
    ensures
        press_step(s, name).1 == Ok::<(), ErrV>(()),
        press_step(s, name).0.log == s.log + press_cmds(d),
        press_step(s, name).0.replies == s.replies.skip(2),
        press_step(s, name).0.navigating == s.navigating,
        press_step(s, name).0.events == s.events,
        press_step(s, name).0.deadline == s.deadline,
{
    assert(s.replies.drop_first()[0] == s.replies[1]);
    assert(press_step(s, name).0.log =~= s.log + press_cmds(d));
    assert(press_step(s, name).0.replies =~= s.replies.skip(2));
}

/// Typing a string whose characters are all in the catalog, with every
/// needed reply arriving, sends one key-down / key-up pair per character,
/// in text order, consumes two replies per character, and succeeds.
pub proof fn lemma_type_str_presses_in_order(s: SessionV, text: Seq<char>)
    requires
        forall|j: int| 0 <= j < text.len() ==> printable(#[trigger] text[j]),
        s.replies.len() >= 2 * text.len(),
        forall|j: int| 0 <= j < 2 * text.len() ==> (#[trigger] s.replies[j]) is Value,
    ensures
        type_step(s, text).1 == Ok::<(), ErrV>(()),
        type_step(s, text).0.log == s.log + type_cmds(text),
        type_step(s, text).0.replies == s.replies.skip(2 * (text.len() as int)),
        type_step(s, text).0.navigating == s.navigating,
        type_step(s, text).0.events == s.events,
        type_step(s, text).0.deadline == s.deadline,
    decreases text.len(),
{
    if text.len() == 0 {
        assert(type_step(s, text).0.log =~= s.log + type_cmds(text));
        assert(type_step(s, text).0.replies =~= s.replies.skip(0));
    } else {
        let c = text[0];
        let name = seq![c];
        assert(name.len() == 1 && name[0] == c);
        let d = char_def(c)->0;
        assert(key_def_of(name) == Some(d));
        assert(s.replies.drop_first()[0] == s.replies[1]);
        let s2 = press_step(s, name).0;
        lemma_press_key_down_then_up(s, name, d);
        let rest = text.drop_first();
        assert forall|j: int| 0 <= j < rest.len() implies printable(#[trigger] rest[j]) by {
            assert(rest[j] == text[j + 1]);
        }
        assert forall|j: int| 0 <= j < 2 * rest.len() implies (#[trigger] s2.replies[j]) is Value by {
            assert(s2.replies[j] == s.replies[j + 2]);
        }
        lemma_type_str_presses_in_order(s2, rest);
        assert(type_step(s, text) == type_step(s2, rest));
        assert(type_step(s, text).0.log =~= s.log + type_cmds(text));
        assert(type_step(s, text).0.replies =~= s.replies.skip(2 * (text.len() as int)));
    }
}

/// A click whose three replies all arrive sends exactly move, press,
/// release — each carrying the same coordinates — consumes three replies,
/// and succeeds.
pub proof fn lemma_click_point_three_calls(s: SessionV, p: Point)
    requires
        s.replies.len() >= 3,
        s.replies[0] is Value,
        s.replies[1] is Value,
        s.replies[2] is Value,
    ensures
        click_step(s, p).1 == Ok::<(), ErrV>(()),
        click_step(s, p).0.log == s.log + seq![
            mouse_cmd(MouseAction::Moved, p),
            mouse_cmd(MouseAction::Pressed, p),
            mouse_cmd(MouseAction::Released, p),
        ],
        click_step(s, p).0.replies == s.replies.skip(3),
        click_step(s, p).0.navigating == s.navigating,
        click_step(s, p).0.events == s.events,
{
    assert(s.replies.drop_first()[0] == s.replies[1]);
    assert(s.replies.drop_first().drop_first()[0] == s.replies[2]);
    assert(click_step(s, p).0.log =~= s.log + seq![
        mouse_cmd(MouseAction::Moved, p),
        mouse_cmd(MouseAction::Pressed, p),
        mouse_cmd(MouseAction::Released, p),
    ]);
    assert(click_step(s, p).0.replies =~= s.replies.skip(3));
}

/// Calls are never torn: the session serializes callers, so two key
/// presses issued one after the other put the first press's command pair
/// on the wire as one contiguous block, followed by the second press's
/// pair — no command of one operation lands between the commands of the
/// other.
pub proof fn lemma_sequential_presses_do_not_interleave(
    s: SessionV,
    name1: Seq<char>,
    name2: Seq<char>,
    d1: KeyDefV,
    d2: KeyDefV,
)
    requires
        key_def_of(name1) == Some(d1),
        key_def_of(name2) == Some(d2),
        s.replies.len() >= 4,
        forall|j: int| 0 <= j < 4 ==> (#[trigger] s.replies[j]) is Value,
    ensures
        press_step(press_step(s, name1).0, name2).0.log == s.log + press_cmds(d1) + press_cmds(
            d2,
        ),
        press_step(press_step(s, name1).0, name2).1 == Ok::<(), ErrV>(()),
{
    lemma_press_key_down_then_up(s, name1, d1);
    let s2 = press_step(s, name1).0;
    assert(s2.replies[0] == s.replies[2]);
    assert(s2.replies[1] == s.replies[3]);
    lemma_press_key_down_then_up(s2, name2, d2);
}

/// While no pending event would switch the flag to the target state, a
/// wait can only run out of polls.
pub proof fn lemma_wait_run_stuck(nav: bool, events: Seq<NavEvent>, target: bool, fuel: u64)
    requires
        nav != target,
        forall|j: int| 0 <= j < events.len() ==> nav_after(nav, #[trigger] events[j]) != target,
    ensures
        !wait_run(nav, events, target, fuel).2,
    decreases fuel,
{
    if fuel == 0 {
    } else if events.len() == 0 {
        lemma_wait_run_stuck(nav, events, target, (fuel - 1) as u64);
    } else {
        let nav2 = nav_after(nav, events[0]);
        let rest = events.drop_first();
        assert forall|j: int| 0 <= j < rest.len() implies nav_after(nav2, #[trigger] rest[j])
            != target by {
            assert(rest[j] == events[j + 1]);
            assert(nav_after(nav2, events[j + 1]) == nav_after(nav, events[j + 1]));
        }
        lemma_wait_run_stuck(nav2, rest, target, (fuel - 1) as u64);
    }
}

/// Navigation observed through the session follows idle, navigating, idle:
/// when the navigate command is answered, the start event and then the
/// finish event arrive while the caller waits, `navigate_to` consumes both
/// transitions, succeeds, and leaves the session idle.
pub proof fn lemma_navigate_full_cycle(s: SessionV, url: Seq<char>)
    requires
        !s.navigating,
        s.replies.len() >= 1,
        s.replies[0] is Value,
        s.events.len() >= 2,
        s.events[0] == NavEvent::Started,
        s.events[1] == NavEvent::Finished,
        s.deadline >= 1,
    ensures
        navigate_step(s, url).1 == Ok::<(), ErrV>(()),
        !navigate_step(s, url).0.navigating,
        navigate_step(s, url).0.log == s.log.push(CmdV::Navigate { url }),
        navigate_step(s, url).0.events == s.events.skip(2),
        navigate_step(s, url).0.replies == s.replies.drop_first(),
{
    let d = s.deadline;
    let e1 = s.events.drop_first();
    assert(wait_run(true, e1, true, (d - 1) as u64) == (true, e1, true));
    assert(wait_run(false, s.events, true, d) == (true, e1, true));
    assert(e1[0] == s.events[1]);
    let e2 = e1.drop_first();
    assert(wait_run(false, e2, false, (d - 1) as u64) == (false, e2, true));
    assert(wait_run(true, e1, false, d) == (false, e2, true));
    assert(navigate_step(s, url).0.events =~= s.events.skip(2));
}

/// If the target never signals that a navigation started, `navigate_to`
/// does not hang: once the poll budget is spent it fails with the timeout
/// error, having sent exactly the navigate command.
pub proof fn lemma_navigate_times_out(s: SessionV, url: Seq<char>)
    requires
        !s.navigating,
        s.replies.len() >= 1,
        s.replies[0] is Value,
        forall|j: int| 0 <= j < s.events.len() ==> #[trigger] s.events[j] != NavEvent::Started,
    ensures
        navigate_step(s, url).1 == Err::<(), ErrV>(ErrV::NavigationTimeout),
        navigate_step(s, url).0.log == s.log.push(CmdV::Navigate { url }),
{
    assert forall|j: int| 0 <= j < s.events.len() implies nav_after(
        false,
        #[trigger] s.events[j],
    ) != true by {
        assert(s.events[j] != NavEvent::Started);
    }
    lemma_wait_run_stuck(false, s.events, true, s.deadline);
}

} // verus!
