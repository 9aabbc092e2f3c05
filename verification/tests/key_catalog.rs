use session_bridge::keys::get_key_definition;
use session_bridge::protocol::Error;

#[test]
fn char_key_is_itself() {
    let d = get_key_definition("a").unwrap();
    assert_eq!(d.key, "a");
    assert_eq!(d.key_code, 97);
    assert_eq!(d.text.as_deref(), Some("a"));
}

#[test]
fn space_and_tilde_are_printable() {
    let space = get_key_definition(" ").unwrap();
    assert_eq!(space.key_code, 32);
    let tilde = get_key_definition("~").unwrap();
    assert_eq!(tilde.key_code, 126);
}

#[test]
fn enter_key_types_carriage_return() {
    let d = get_key_definition("Enter").unwrap();
    assert_eq!(d.key, "Enter");
    assert_eq!(d.key_code, 13);
    assert_eq!(d.text.as_deref(), Some("\r"));
}

#[test]
fn arrow_keys_have_no_text() {
    let d = get_key_definition("ArrowDown").unwrap();
    assert_eq!(d.key, "ArrowDown");
    assert_eq!(d.key_code, 40);
    assert!(d.text.is_none());
}

#[test]
fn unknown_name_is_reported() {
    match get_key_definition("NoSuchKey") {
        Err(Error::UnknownKey { key }) => assert_eq!(key, "NoSuchKey"),
        other => panic!("expected the unknown-key error, got {:?}", other),
    }
}

#[test]
fn unprintable_char_is_unknown() {
    assert!(matches!(get_key_definition("\n"), Err(Error::UnknownKey { .. })));
}
