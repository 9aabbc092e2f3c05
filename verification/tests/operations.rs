use session_bridge::protocol::{
    Command, Error, KeyAction, MouseAction, NavEvent, Node, Point, Reply, Response,
};
use session_bridge::session::Session;
use session_bridge::tab::Tab;

fn tab_with(replies: Vec<Reply>, events: Vec<NavEvent>, deadline: u64) -> Tab {
    Tab { page_session: Session::new(replies, events, deadline) }
}

fn acks(n: usize) -> Vec<Reply> {
    (0..n).map(|_| Reply::Value(Response::Ack)).collect()
}

#[test]
fn press_key_sends_down_then_up() {
    let mut tab = tab_with(acks(2), vec![], 0);
    tab.press_key("a").unwrap();
    let log = &tab.page_session.log;
    assert_eq!(log.len(), 2);
    match (&log[0], &log[1]) {
        (
            Command::DispatchKeyEvent { action: KeyAction::Down, key: k0, key_code: c0, text: t0 },
            Command::DispatchKeyEvent { action: KeyAction::Up, key: k1, key_code: c1, text: t1 },
        ) => {
            assert_eq!(k0, "a");
            assert_eq!(k1, "a");
            assert_eq!((c0, c1), (&97, &97));
            assert_eq!(t0.as_deref(), Some("a"));
            assert_eq!(t1.as_deref(), Some("a"));
        },
        other => panic!("expected key-down then key-up, got {:?}", other),
    }
    assert!(tab.page_session.replies.is_empty());
}

#[test]
fn sequential_presses_stay_contiguous() {
    let mut tab = tab_with(acks(4), vec![], 0);
    tab.press_key("a").unwrap();
    tab.press_key("Enter").unwrap();
    let keys: Vec<(KeyAction, String)> = tab
        .page_session
        .log
        .iter()
        .map(|cmd| match cmd {
            Command::DispatchKeyEvent { action, key, .. } => (*action, key.clone()),
            other => panic!("expected a key event, got {:?}", other),
        })
        .collect();
    let a = String::from("a");
    let enter = String::from("Enter");
    assert_eq!(
        keys,
        vec![
            (KeyAction::Down, a.clone()),
            (KeyAction::Up, a),
            (KeyAction::Down, enter.clone()),
            (KeyAction::Up, enter),
        ]
    );
}

#[test]
fn press_key_unknown_sends_nothing() {
    let mut tab = tab_with(acks(2), vec![], 0);
    match tab.press_key("Bogus") {
        Err(Error::UnknownKey { key }) => assert_eq!(key, "Bogus"),
        other => panic!("expected the unknown-key error, got {:?}", other),
    }
    assert!(tab.page_session.log.is_empty());
    assert_eq!(tab.page_session.replies.len(), 2);
}

#[test]
fn press_key_aborts_on_failed_down() {
    let mut tab = tab_with(vec![Reply::ProtocolError, Reply::Value(Response::Ack)], vec![], 0);
    assert!(matches!(tab.press_key("a"), Err(Error::Protocol)));
    assert_eq!(tab.page_session.log.len(), 1);
    assert_eq!(tab.page_session.replies.len(), 1);
}

#[test]
fn type_str_empty_sends_nothing() {
    let mut tab = tab_with(vec![], vec![], 0);
    tab.type_str("").unwrap();
    assert!(tab.page_session.log.is_empty());
}

#[test]
fn type_str_presses_each_char_in_order() {
    let mut tab = tab_with(acks(4), vec![], 0);
    tab.type_str("ab").unwrap();
    let log = &tab.page_session.log;
    assert_eq!(log.len(), 4);
    let expect = [
        (KeyAction::Down, "a"),
        (KeyAction::Up, "a"),
        (KeyAction::Down, "b"),
        (KeyAction::Up, "b"),
    ];
    for (cmd, (want_action, want_key)) in log.iter().zip(expect.iter()) {
        match cmd {
            Command::DispatchKeyEvent { action, key, .. } => {
                assert_eq!(action, want_action);
                assert_eq!(key, want_key);
            },
            other => panic!("expected a key event, got {:?}", other),
        }
    }
}

#[test]
fn type_str_stops_at_first_failure() {
    let mut tab = tab_with(vec![Reply::Value(Response::Ack), Reply::ProtocolError], vec![], 0);
    assert!(matches!(tab.type_str("ab"), Err(Error::Protocol)));
    // the failing key-up of 'a' was still sent; 'b' never was
    assert_eq!(tab.page_session.log.len(), 2);
}

#[test]
fn type_str_stops_at_unknown_char() {
    let mut tab = tab_with(acks(4), vec![], 0);
    match tab.type_str("a\n") {
        Err(Error::UnknownKey { key }) => assert_eq!(key, "\n"),
        other => panic!("expected the unknown-key error, got {:?}", other),
    }
    assert_eq!(tab.page_session.log.len(), 2);
}

#[test]
fn click_point_moves_presses_releases() {
    let mut tab = tab_with(acks(3), vec![], 0);
    tab.click_point(Point { x: 10, y: 20 }).unwrap();
    let log = &tab.page_session.log;
    assert_eq!(log.len(), 3);
    let expect = [MouseAction::Moved, MouseAction::Pressed, MouseAction::Released];
    for (cmd, want) in log.iter().zip(expect.iter()) {
        match cmd {
            Command::DispatchMouseEvent { action, x, y } => {
                assert_eq!(action, want);
                assert_eq!((*x, *y), (10, 20));
            },
            other => panic!("expected a mouse event, got {:?}", other),
        }
    }
}

#[test]
fn click_point_aborts_mid_gesture() {
    let mut tab = tab_with(vec![Reply::Value(Response::Ack), Reply::Disconnected], vec![], 0);
    assert!(matches!(tab.click_point(Point { x: 1, y: 2 }), Err(Error::Transport)));
    // move and press went out; release was never sent
    assert_eq!(tab.page_session.log.len(), 2);
}

#[test]
fn describe_node_asks_bounded_depth() {
    let replies = vec![Reply::Value(Response::Description { node: Node { backend_node_id: 5 } })];
    let mut tab = tab_with(replies, vec![], 0);
    let node = tab.describe_node(3).unwrap();
    assert_eq!(node.backend_node_id, 5);
    match &tab.page_session.log[0] {
        Command::DescribeNode { node_id, depth } => {
            assert_eq!(*node_id, 3);
            assert_eq!(*depth, 100);
        },
        other => panic!("expected a describe command, got {:?}", other),
    }
}

#[test]
fn call_logs_even_when_disconnected() {
    let mut session = Session::new(vec![], vec![], 0);
    let r = session.call(Command::GetDocument { depth: 0, pierce: false });
    assert!(matches!(r, Err(Error::Transport)));
    assert_eq!(session.log.len(), 1);
}
