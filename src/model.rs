use vstd::prelude::*;

verus! {

/// One entry of a conversation: who spoke (`"user"`, `"assistant"`,
/// `"system"`) and what was said.
#[derive(Debug, Clone)]
pub struct Message {
    pub role: String,
    pub content: String,
}

/// The mathematical value of a [`Message`].
pub ghost struct MessageView {
    pub role: Seq<char>,
    pub content: Seq<char>,
}

impl View for Message {
    type V = MessageView;

    open spec fn view(&self) -> MessageView {
        MessageView { role: self.role@, content: self.content@ }
    }
}

/// The single persisted conversation: its row identifier and its messages in
/// the order they were added.
#[derive(Debug, Clone)]
pub struct Conversation {
    pub id: i64,
    pub messages: Vec<Message>,
}

/// The mathematical value of a [`Conversation`].
pub ghost struct ConversationView {
    pub id: int,
    pub messages: Seq<MessageView>,
}

impl View for Conversation {
    type V = ConversationView;

    open spec fn view(&self) -> ConversationView {
        ConversationView { id: self.id as int, messages: self.messages.deep_view() }
    }
}

impl DeepView for Message {
    type V = MessageView;

    open spec fn deep_view(&self) -> MessageView {
        self@
    }
}

/// The single persisted settings record: the root paths to index, in order,
/// and how often indexing should run.
#[derive(Debug, Clone)]
pub struct AppSettings {
    pub id: i64,
    pub root_paths: Vec<String>,
    pub index_interval_minutes: i32,
}

/// The mathematical value of an [`AppSettings`].
pub ghost struct AppSettingsView {
    pub id: int,
    pub root_paths: Seq<Seq<char>>,
    pub index_interval_minutes: int,
}

impl View for AppSettings {
    type V = AppSettingsView;

    open spec fn view(&self) -> AppSettingsView {
        AppSettingsView {
            id: self.id as int,
            root_paths: self.root_paths.deep_view(),
            index_interval_minutes: self.index_interval_minutes as int,
        }
    }
}

/// The message value with the given role and content.
pub open spec fn message_of(role: Seq<char>, content: Seq<char>) -> MessageView {
    MessageView { role, content }
}

impl Message {
    /// A message with the given role and content.
    pub fn new(role: &str, content: &str) -> (r: Message)
        ensures
            r@ == message_of(role@, content@),
    {
        Message { role: String::from_str(role), content: String::from_str(content) }
    }
}

} // verus!
