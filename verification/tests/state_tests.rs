use projwarrior::state::State;
use rusqlite::types::ValueRef;

#[test]
fn test_state_display() {
    assert_eq!(State::Pending.to_string(), "Pending");
    assert_eq!(State::Complete.to_string(), "Complete");
    assert_eq!(State::Incubate.to_string(), "Incubate");
}

#[test]
fn test_state_from_sql() {
    let text = |v: ValueRef<'static>| v.as_str().unwrap().to_string();
    assert_eq!(
        State::from_text(&text(ValueRef::Text(b"Pending"))).unwrap(),
        State::Pending
    );
    assert_eq!(
        State::from_text(&text(ValueRef::Text(b"Complete"))).unwrap(),
        State::Complete
    );
    assert_eq!(
        State::from_text(&text(ValueRef::Text(b"Incubate"))).unwrap(),
        State::Incubate
    );
    assert!(State::from_text(&text(ValueRef::Text(b"Unknown"))).is_none());
}

#[test]
fn state_text_round_trip() {
    for st in [State::Pending, State::Complete, State::Incubate] {
        assert_eq!(State::from_text(&st.to_string()), Some(st));
    }
}

#[test]
fn state_text_is_case_sensitive() {
    assert_eq!(State::from_text("pending"), None);
    assert_eq!(State::from_text("Pending "), None);
    assert_eq!(State::from_text(""), None);
}

#[test]
fn state_default_is_pending() {
    assert_eq!(State::default(), State::Pending);
}
