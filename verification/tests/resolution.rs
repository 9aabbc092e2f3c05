use session_bridge::protocol::{Command, Error, NavEvent, Node, Reply, Response};
use session_bridge::session::Session;
use session_bridge::tab::Tab;

fn tab_with(replies: Vec<Reply>, events: Vec<NavEvent>, deadline: u64) -> Tab {
    Tab { page_session: Session::new(replies, events, deadline) }
}

#[test]
fn find_element_not_found_stops_after_query() {
    let replies = vec![
        Reply::Value(Response::Document { root_node_id: 1 }),
        Reply::Value(Response::QueryResult { node_id: 0 }),
    ];
    let mut tab = tab_with(replies, vec![], 0);
    match tab.find_element("div.missing") {
        Err(Error::NotFound(why)) => assert_eq!(why.selector, "div.missing"),
        other => panic!("expected the not-found error, got {:?}", other),
    }
    let log = &tab.page_session.log;
    assert_eq!(log.len(), 2);
    assert!(matches!(log[0], Command::GetDocument { depth: 0, pierce: false }));
    match &log[1] {
        Command::QuerySelector { node_id, selector } => {
            assert_eq!(*node_id, 1);
            assert_eq!(selector, "div.missing");
        },
        other => panic!("expected the query command, got {:?}", other),
    }
}

#[test]
fn find_element_resolves_all_three_identities() {
    let replies = vec![
        Reply::Value(Response::Document { root_node_id: 1 }),
        Reply::Value(Response::QueryResult { node_id: 42 }),
        Reply::Value(Response::Description { node: Node { backend_node_id: 7 } }),
        Reply::Value(Response::Resolved { object_id: Some(String::from("obj-9")) }),
    ];
    let mut tab = tab_with(replies, vec![], 0);
    let element = tab.find_element("#login").unwrap();
    assert_eq!(element.backend_node_id, 7);
    assert_eq!(element.remote_object_id, "obj-9");
    // non-sentinel identities on success
    assert_ne!(element.backend_node_id, 0);
    assert!(!element.remote_object_id.is_empty());
    let log = &tab.page_session.log;
    assert_eq!(log.len(), 4);
    assert!(matches!(log[2], Command::DescribeNode { node_id: 42, depth: 100 }));
    assert!(matches!(log[3], Command::ResolveNode { backend_node_id: 7 }));
}

#[test]
fn find_element_missing_object_id_is_invariant_failure() {
    let replies = vec![
        Reply::Value(Response::Document { root_node_id: 1 }),
        Reply::Value(Response::QueryResult { node_id: 42 }),
        Reply::Value(Response::Description { node: Node { backend_node_id: 7 } }),
        Reply::Value(Response::Resolved { object_id: None }),
    ];
    let mut tab = tab_with(replies, vec![], 0);
    assert!(matches!(tab.find_element("p"), Err(Error::InternalInvariant)));
}

#[test]
fn find_element_propagates_target_error() {
    let mut tab = tab_with(vec![Reply::ProtocolError], vec![], 0);
    assert!(matches!(tab.find_element("p"), Err(Error::Protocol)));
    assert_eq!(tab.page_session.log.len(), 1);
}

#[test]
fn find_element_rejects_misshapen_reply() {
    let mut tab = tab_with(vec![Reply::Value(Response::Ack)], vec![], 0);
    assert!(matches!(tab.find_element("p"), Err(Error::Transport)));
}

#[test]
fn navigate_to_waits_for_both_transitions() {
    let replies = vec![Reply::Value(Response::Ack)];
    let events = vec![NavEvent::Started, NavEvent::Finished];
    let mut tab = tab_with(replies, events, 5);
    tab.navigate_to("https://example.test/").unwrap();
    assert!(!tab.page_session.is_navigating());
    // the waiting caller consumed both lifecycle events
    assert!(tab.page_session.events.is_empty());
    let log = &tab.page_session.log;
    assert_eq!(log.len(), 1);
    match &log[0] {
        Command::Navigate { url } => assert_eq!(url, "https://example.test/"),
        other => panic!("expected the navigate command, got {:?}", other),
    }
}

#[test]
fn navigate_to_times_out_without_start_event() {
    let mut tab = tab_with(vec![Reply::Value(Response::Ack)], vec![], 3);
    assert!(matches!(tab.navigate_to("https://example.test/"), Err(Error::NavigationTimeout)));
    assert_eq!(tab.page_session.log.len(), 1);
}

#[test]
fn navigate_to_times_out_without_finish_event() {
    let mut tab = tab_with(vec![Reply::Value(Response::Ack)], vec![NavEvent::Started], 3);
    assert!(matches!(tab.navigate_to("https://example.test/"), Err(Error::NavigationTimeout)));
    // the start was observed, so the session is still navigating
    assert!(tab.page_session.is_navigating());
}

#[test]
fn navigate_to_surfaces_lost_connection() {
    let mut tab = tab_with(vec![], vec![NavEvent::Started, NavEvent::Finished], 3);
    assert!(matches!(tab.navigate_to("https://example.test/"), Err(Error::Transport)));
    assert_eq!(tab.page_session.log.len(), 1);
    // nothing was waited on, so no event was consumed
    assert_eq!(tab.page_session.events.len(), 2);
}

#[test]
fn event_listener_drives_state_idle_navigating_idle() {
    let mut session = Session::new(vec![], vec![], 0);
    assert!(!session.is_navigating());
    session.deliver_event(NavEvent::Started);
    assert!(session.is_navigating());
    session.deliver_event(NavEvent::Finished);
    assert!(!session.is_navigating());
}
