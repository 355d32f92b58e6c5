//! The preferences dialog: which settings it shows, the statements that read
//! and write them, and the message it shows after loading or saving.
use vstd::prelude::*;

verus! {

/// One setting of the `config` table.
#[derive(Debug, Clone, Copy, PartialEq, Eq)]
pub enum PreferenceKey {
    Interval,
    Host,
    Port,
    Quality,
}

/// The kinds of message the dialog can show.
#[derive(Debug, Clone, Copy, PartialEq, Eq)]
pub enum MessageKind {
    Info,
    Warning,
    Question,
    Error,
    Other,
}

/// The text of a successful update.
pub const PREFERENCES_UPDATED: &'static str = "Preferences Updated";

/// The text shown when the settings cannot be read.
pub const FETCH_FAILED: &'static str = "Unable to fetch values";

/// The text shown when the settings cannot be written.
pub const SAVE_FAILED: &'static str = "Unable to save preferences";

/// The query that reads a setting.
pub open spec fn spec_select_query(key: PreferenceKey) -> Seq<char> {
    match key {
        PreferenceKey::Interval => "SELECT value from config where key='interval'"@,
        PreferenceKey::Host => "SELECT value from config where key='host'"@,
        PreferenceKey::Port => "SELECT value from config where key='port'"@,
        PreferenceKey::Quality => "SELECT value from config where key='quality'"@,
    }
}

/// The statement that writes a setting.
pub open spec fn spec_update_statement(key: PreferenceKey) -> Seq<char> {
    match key {
        PreferenceKey::Interval => "UPDATE config set value=? where key='interval'"@,
        PreferenceKey::Host => "UPDATE config set value=? where key='host'"@,
        PreferenceKey::Port => "UPDATE config set value=? where key='port'"@,
        PreferenceKey::Quality => "UPDATE config set value=? where key='quality'"@,
    }
}

/// The query that reads the setting `key`.
pub fn select_query(key: PreferenceKey) -> (query: &'static str)
    ensures
        query@ == spec_select_query(key),
{
    match key {
        PreferenceKey::Interval => "SELECT value from config where key='interval'",
        PreferenceKey::Host => "SELECT value from config where key='host'",
        PreferenceKey::Port => "SELECT value from config where key='port'",
        PreferenceKey::Quality => "SELECT value from config where key='quality'",
    }
}

/// The statement that writes the setting `key`.
pub fn update_statement(key: PreferenceKey) -> (statement: &'static str)
    ensures
        statement@ == spec_update_statement(key),
{
    match key {
        PreferenceKey::Interval => "UPDATE config set value=? where key='interval'",
        PreferenceKey::Host => "UPDATE config set value=? where key='host'",
        PreferenceKey::Port => "UPDATE config set value=? where key='port'",
        PreferenceKey::Quality => "UPDATE config set value=? where key='quality'",
    }
}

/// The order in which the dialog reads the settings.
pub open spec fn spec_load_order() -> Seq<PreferenceKey> {
    seq![PreferenceKey::Interval, PreferenceKey::Host, PreferenceKey::Port, PreferenceKey::Quality]
}

/// The order in which the dialog writes the settings.
pub open spec fn spec_save_order() -> Seq<PreferenceKey> {
    seq![PreferenceKey::Interval, PreferenceKey::Quality, PreferenceKey::Host, PreferenceKey::Port]
}

/// The settings, in the order in which the dialog reads them.
pub fn load_order() -> (keys: Vec<PreferenceKey>)
    ensures
        keys@ == spec_load_order(),
{
    let keys = vec![PreferenceKey::Interval, PreferenceKey::Host, PreferenceKey::Port, PreferenceKey::Quality];
    proof {
        assert(keys@ =~= spec_load_order());
    }
    keys
}

/// The settings, in the order in which the dialog writes them.
pub fn save_order() -> (keys: Vec<PreferenceKey>)
    ensures
        keys@ == spec_save_order(),
{
    let keys = vec![PreferenceKey::Interval, PreferenceKey::Quality, PreferenceKey::Host, PreferenceKey::Port];
    proof {
        assert(keys@ =~= spec_save_order());
    }
    keys
}

/// The text shown for a message of kind `kind`: the error text for an
/// error, the update notice for any other kind.
pub open spec fn spec_message_text(kind: MessageKind, error: Option<Seq<char>>) -> Option<Seq<char>> {
    match kind {
        MessageKind::Error => error,
        _ => Some(PREFERENCES_UPDATED@),
    }
}

/// An optional text taken by its characters.
pub open spec fn text_view(text: Option<&str>) -> Option<Seq<char>> {
    match text {
        Some(t) => Some(t@),
        None => None,
    }
}

/// The text the dialog shows for a message of kind `kind` with the error
/// text `error`.
pub fn message_text<'a>(kind: MessageKind, error: Option<&'a str>) -> (text: Option<&'a str>)
    ensures
        text_view(text) == spec_message_text(kind, text_view(error)),
{
    match kind {
        MessageKind::Info => Some(PREFERENCES_UPDATED),
        MessageKind::Error => error,
        _ => Some(PREFERENCES_UPDATED),
    }
}

/// The message shown when the settings could not be read.
pub fn load_failure_message() -> (message: (MessageKind, Option<&'static str>))
    ensures
        message.0 == MessageKind::Error,
        message.1 == Some(FETCH_FAILED),
{
    (MessageKind::Error, Some(FETCH_FAILED))
}

/// The message shown after saving: a notice when it worked, the failure
/// text when it did not.
pub fn save_message(saved: bool) -> (message: (MessageKind, Option<&'static str>))
    ensures
        message == (if saved { (MessageKind::Info, None::<&'static str>) } else { (MessageKind::Error, Some(SAVE_FAILED)) }),
{
    if saved {
        (MessageKind::Info, None)
    } else {
        (MessageKind::Error, Some(SAVE_FAILED))
    }
}

/// The dialog reads and writes every setting, each exactly once.
pub proof fn law_every_setting_loaded_and_saved_once(key: PreferenceKey)
    ensures
        spec_load_order().contains(key),
        spec_save_order().contains(key),
        spec_load_order().filter(|k: PreferenceKey| k == key).len() == 1,
        spec_save_order().filter(|k: PreferenceKey| k == key).len() == 1,
{
    reveal_with_fuel(Seq::filter, 5);
    match key {
        PreferenceKey::Interval => {
            assert(spec_load_order()[0] == key);
            assert(spec_save_order()[0] == key);
        },
        PreferenceKey::Host => {
            assert(spec_load_order()[1] == key);
            assert(spec_save_order()[2] == key);
        },
        PreferenceKey::Port => {
            assert(spec_load_order()[2] == key);
            assert(spec_save_order()[3] == key);
        },
        PreferenceKey::Quality => {
            assert(spec_load_order()[3] == key);
            assert(spec_save_order()[1] == key);
        },
    }
}


/// The name of the row of the `config` table that holds a setting.
pub open spec fn config_name(key: PreferenceKey) -> Seq<char> {
    match key {
        PreferenceKey::Interval => "interval"@,
        PreferenceKey::Host => "host"@,
        PreferenceKey::Port => "port"@,
        PreferenceKey::Quality => "quality"@,
    }
}

/// The dialog reads the settings in the order of its entries (interval,
/// host, port, quality) and writes them as interval, quality, host, port.
pub proof fn law_setting_orders()
    ensures
        spec_load_order() == seq![PreferenceKey::Interval, PreferenceKey::Host, PreferenceKey::Port, PreferenceKey::Quality],
        spec_save_order() == seq![PreferenceKey::Interval, PreferenceKey::Quality, PreferenceKey::Host, PreferenceKey::Port],
{
}

/// Every message but an error tells that the preferences were updated; an
/// error shows the error text it was given, whatever it is.
pub proof fn law_message_texts(kind: MessageKind, error: Option<Seq<char>>)
    ensures
        kind != MessageKind::Error ==> spec_message_text(kind, error) == Some("Preferences Updated"@),
        kind == MessageKind::Error ==> spec_message_text(kind, error) == error,
        PREFERENCES_UPDATED@ == "Preferences Updated"@,
        FETCH_FAILED@ == "Unable to fetch values"@,
        SAVE_FAILED@ == "Unable to save preferences"@,
{
}

/// Each setting has a row of its own: distinct settings are stored under
/// distinct names.
pub proof fn law_settings_have_distinct_rows(a: PreferenceKey, b: PreferenceKey)
    ensures
        a != b ==> config_name(a) != config_name(b),
{
    reveal_strlit("interval");
    reveal_strlit("host");
    reveal_strlit("port");
    reveal_strlit("quality");
    if a != b && config_name(a) == config_name(b) {
        assert(config_name(a).len() == config_name(b).len());
        assert(config_name(a)[0] == config_name(b)[0]);
    }
}

/// The dialog reads a setting from its own row and no other: the query for
/// `key` selects the value of the row named for `key`.
pub proof fn law_query_reads_own_row(key: PreferenceKey)
    ensures
        spec_select_query(key) == "SELECT value from config where key='"@ + config_name(key) + "'"@,
{
    reveal_strlit("SELECT value from config where key='");
    reveal_strlit("'");
    reveal_strlit("interval");
    reveal_strlit("host");
    reveal_strlit("port");
    reveal_strlit("quality");
    reveal_strlit("SELECT value from config where key='interval'");
    reveal_strlit("SELECT value from config where key='host'");
    reveal_strlit("SELECT value from config where key='port'");
    reveal_strlit("SELECT value from config where key='quality'");
    assert(spec_select_query(key) =~= "SELECT value from config where key='"@ + config_name(key) + "'"@);
}

/// The dialog writes a setting to its own row and no other: the statement
/// for `key` updates the value of the row named for `key`, the row that the
/// query for `key` reads.
pub proof fn law_update_writes_own_row(key: PreferenceKey)
    ensures
        spec_update_statement(key) == "UPDATE config set value=? where key='"@ + config_name(key) + "'"@,
{
    reveal_strlit("UPDATE config set value=? where key='");
    reveal_strlit("'");
    reveal_strlit("interval");
    reveal_strlit("host");
    reveal_strlit("port");
    reveal_strlit("quality");
    reveal_strlit("UPDATE config set value=? where key='interval'");
    reveal_strlit("UPDATE config set value=? where key='host'");
    reveal_strlit("UPDATE config set value=? where key='port'");
    reveal_strlit("UPDATE config set value=? where key='quality'");
    assert(spec_update_statement(key) =~= "UPDATE config set value=? where key='"@ + config_name(key) + "'"@);
}

} // verus!
