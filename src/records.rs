use vstd::prelude::*;
use crate::json::{decode_strings, encode_strings, json_of_strings, strings_of_json};
use crate::model::{message_of, AppSettings, Conversation, Message, MessageView};

verus! {

/// Row identifier given to the conversation and the settings record when they
/// are first created.
pub const DEFAULT_ID: i64 = 1;

/// How often indexing runs in a freshly created settings record, in minutes.
pub const DEFAULT_INDEX_INTERVAL_MINUTES: i32 = 60;

/// The messages of a freshly created conversation: one system greeting.
pub open spec fn default_messages() -> Seq<MessageView> {
    seq![message_of("system"@, "Welcome to Indexedrag!"@)]
}

/// The root paths of a freshly created settings record.
pub open spec fn default_root_paths() -> Seq<Seq<char>> {
    seq!["/path/to/somewhere"@]
}

/// The conversation stored when the database holds none yet.
pub fn default_conversation() -> (r: Conversation)
    ensures
        r@.id == DEFAULT_ID,
        r@.messages == default_messages(),
{
    let mut messages: Vec<Message> = Vec::new();
    messages.push(Message::new("system", "Welcome to Indexedrag!"));
    let r = Conversation { id: DEFAULT_ID, messages };
    assert(r@.messages =~= default_messages());
    r
}

/// The settings record stored when the database holds none yet.
pub fn default_settings() -> (r: AppSettings)
    ensures
        r@.id == DEFAULT_ID,
        r@.root_paths == default_root_paths(),
        r@.index_interval_minutes == DEFAULT_INDEX_INTERVAL_MINUTES,
{
    let mut root_paths: Vec<String> = Vec::new();
    root_paths.push(String::from_str("/path/to/somewhere"));
    let r = AppSettings {
        id: DEFAULT_ID,
        root_paths,
        index_interval_minutes: DEFAULT_INDEX_INTERVAL_MINUTES,
    };
    assert(r@.root_paths =~= default_root_paths());
    r
}

/// The conversation read back from a stored row: its identifier and its
/// messages, or no messages when the stored text could not be decoded.
pub fn conversation_from_row(id: i64, decoded: Option<Vec<Message>>) -> (r: Conversation)
    ensures
        r@.id == id,
        r@.messages == match decoded {
            Some(v) => v.deep_view(),
            None => Seq::<MessageView>::empty(),
        },
{
    let messages = match decoded {
        Some(v) => v,
        None => Vec::new(),
    };
    let r = Conversation { id, messages };
    assert(r@.messages =~= match decoded {
        Some(v) => v.deep_view(),
        None => Seq::<MessageView>::empty(),
    });
    r
}

/// The root paths that a stored text stands for: its strings when it is a JSON
/// list of strings, none otherwise.
pub open spec fn root_paths_of_text(decoded: Option<Seq<Seq<char>>>) -> Seq<Seq<char>> {
    match decoded {
        Some(v) => v,
        None => Seq::empty(),
    }
}

/// The settings record read back from a stored row whose root paths were
/// already decoded; an undecodable list counts as empty.
pub fn settings_from_decoded(
    id: i64,
    decoded: Option<Vec<String>>,
    index_interval_minutes: i32,
) -> (r: AppSettings)
    ensures
        r@.id == id,
        r@.root_paths == root_paths_of_text(decoded.deep_view()),
        r@.index_interval_minutes == index_interval_minutes,
{
    let root_paths = match decoded {
        Some(v) => v,
        None => Vec::new(),
    };
    let r = AppSettings { id, root_paths, index_interval_minutes };
    assert(r@.root_paths =~= root_paths_of_text(decoded.deep_view()));
    r
}

/// The settings record read back from a stored row, decoding the root paths
/// from their JSON text.
pub fn settings_from_row(id: i64, root_paths_json: &str, index_interval_minutes: i32) -> (r:
    AppSettings)
    ensures
        r@.id == id,
        r@.root_paths == root_paths_of_text(strings_of_json(root_paths_json@)),
        r@.index_interval_minutes == index_interval_minutes,
{
    let decoded = decode_strings(root_paths_json);
    settings_from_decoded(id, decoded, index_interval_minutes)
}

/// The JSON text under which the root paths of a settings record are stored.
pub fn root_paths_text(settings: &AppSettings) -> (r: String)
    ensures
        r@ == json_of_strings(settings@.root_paths),
{
    encode_strings(&settings.root_paths)
}

} // verus!
