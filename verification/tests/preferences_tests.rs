use movie_db::preferences::{
    load_failure_message, load_order, message_text, save_message, save_order, select_query,
    update_statement, MessageKind, PreferenceKey,
};

#[test]
fn settings_are_read_in_dialog_order() {
    assert_eq!(
        load_order(),
        vec![PreferenceKey::Interval, PreferenceKey::Host, PreferenceKey::Port, PreferenceKey::Quality]
    );
    assert_eq!(select_query(PreferenceKey::Host), "SELECT value from config where key='host'");
}

#[test]
fn settings_are_written_in_save_order() {
    assert_eq!(
        save_order(),
        vec![PreferenceKey::Interval, PreferenceKey::Quality, PreferenceKey::Host, PreferenceKey::Port]
    );
    assert_eq!(update_statement(PreferenceKey::Port), "UPDATE config set value=? where key='port'");
}

#[test]
fn message_texts() {
    assert_eq!(message_text(MessageKind::Info, None), Some("Preferences Updated"));
    assert_eq!(message_text(MessageKind::Info, Some("x")), Some("Preferences Updated"));
    assert_eq!(message_text(MessageKind::Error, Some("boom")), Some("boom"));
    assert_eq!(message_text(MessageKind::Error, None), None);
    assert_eq!(message_text(MessageKind::Warning, Some("w")), Some("Preferences Updated"));
}

#[test]
fn outcome_messages() {
    let (kind, error) = save_message(true);
    assert_eq!(message_text(kind, error), Some("Preferences Updated"));
    let (kind, error) = save_message(false);
    assert_eq!(message_text(kind, error), Some("Unable to save preferences"));
    let (kind, error) = load_failure_message();
    assert_eq!(message_text(kind, error), Some("Unable to fetch values"));
}
