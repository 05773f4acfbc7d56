use vstd::prelude::*;
use crate::interval::{parse_i32, parsed_i32};
use crate::model::{message_of, AppSettings, Conversation, Message};

verus! {

/// What the embedding program has to write back to the database after an
/// action of the user.
#[derive(Debug, Clone, Copy, PartialEq, Eq, Structural)]
pub enum Persist {
    Conversation,
    Settings,
}

/// The state shown in the window: the conversation, the text being typed,
/// whether the settings form is open, and the settings as edited there.
#[derive(Debug, Clone)]
pub struct ChatSession {
    pub conversation: Conversation,
    pub current_input: String,
    pub settings_open: bool,
    pub settings: AppSettings,
}

/// The simulated assistant answer to a user message.
pub open spec fn stub_reply_text(input: Seq<char>) -> Seq<char> {
    "(Stub) LLM Response to: '"@ + input + "'"@
}

/// The simulated assistant answer to `user_input`.
pub fn stub_reply(user_input: &str) -> (r: String)
    ensures
        r@ == stub_reply_text(user_input@),
{
    let mut r = String::from_str("(Stub) LLM Response to: '");
    r.append(user_input);
    r.append("'");
    r
}

/// The set of positions listed in `indices`.
pub open spec fn index_set(indices: Seq<usize>) -> Set<int> {
    Set::new(|k: int| exists|t: int| 0 <= t < indices.len() && indices[t] as int == k)
}

/// `s` with the elements at the positions in `idx` taken out, the others kept
/// in order.
pub open spec fn without_indices<A>(s: Seq<A>, idx: Set<int>) -> Seq<A>
    decreases s.len(),
{
    if s.len() == 0 {
        s
    } else {
        let rest = without_indices(s.drop_last(), idx);
        if idx.contains(s.len() - 1) {
            rest
        } else {
            rest.push(s.last())
        }
    }
}

fn lists_index(indices: &Vec<usize>, j: usize) -> (r: bool)
    ensures
        r == index_set(indices@).contains(j as int),
{
    let mut t: usize = 0;
    while t < indices.len()
        invariant
            t <= indices@.len(),
            forall|u: int| 0 <= u < t ==> indices@[u] != j,
        decreases indices@.len() - t,
    {
        if indices[t] == j {
            return true;
        }
        t = t + 1;
    }
    false
}

impl ChatSession {
    /// A session over the stored conversation and settings, with nothing typed
    /// and the settings form closed.
    pub fn new(conversation: Conversation, settings: AppSettings) -> (r: ChatSession)
        ensures
            r.conversation@ == conversation@,
            r.current_input@ == Seq::<char>::empty(),
            !r.settings_open,
            r.settings@ == settings@,
    {
        ChatSession { conversation, current_input: String::new(), settings_open: false, settings }
    }

    /// Appends the simulated assistant answer to `user_input`.
    pub fn call_llm_api_stub(&mut self, user_input: &str)
        ensures
            final(self).conversation@.id == old(self).conversation@.id,
            final(self).conversation@.messages == old(self).conversation@.messages.push(
                message_of("assistant"@, stub_reply_text(user_input@)),
            ),
            final(self).current_input@ == old(self).current_input@,
            final(self).settings_open == old(self).settings_open,
            final(self).settings@ == old(self).settings@,
    {
        let reply = stub_reply(user_input);
        let ghost before = self.conversation.messages.deep_view();
        self.conversation.messages.push(Message { role: String::from_str("assistant"), content: reply });
        assert(self.conversation.messages.deep_view() =~= before.push(
            message_of("assistant"@, stub_reply_text(user_input@)),
        ));
    }

    /// Sends the typed text: appends it as a user message, appends the
    /// simulated answer, clears the input, and asks for the conversation to be
    /// stored.
    pub fn send_current_input(&mut self) -> (r: Persist)
        ensures
            r == Persist::Conversation,
            final(self).conversation@.id == old(self).conversation@.id,
            final(self).conversation@.messages == old(self).conversation@.messages
                .push(message_of("user"@, old(self).current_input@))
                .push(message_of("assistant"@, stub_reply_text(old(self).current_input@))),
            final(self).current_input@ == Seq::<char>::empty(),
            final(self).settings_open == old(self).settings_open,
            final(self).settings@ == old(self).settings@,
    {
        let input = self.current_input.clone();
        let ghost before = self.conversation.messages.deep_view();
        self.conversation.messages.push(Message { role: String::from_str("user"), content: input.clone() });
        assert(self.conversation.messages.deep_view() =~= before.push(
            message_of("user"@, input@),
        ));
        self.call_llm_api_stub(input.as_str());
        self.current_input = String::new();
        Persist::Conversation
    }

    /// Opens the settings form when it is closed, closes it when it is open.
    pub fn toggle_settings(&mut self)
        ensures
            final(self).settings_open == !old(self).settings_open,
            final(self).conversation@ == old(self).conversation@,
            final(self).current_input@ == old(self).current_input@,
            final(self).settings@ == old(self).settings@,
    {
        self.settings_open = !self.settings_open;
    }

    /// Takes out the root paths at the listed positions; the others keep their
    /// order, and positions past the end are ignored.
    pub fn remove_root_paths(&mut self, indices: &Vec<usize>)
        ensures
            final(self).settings@.root_paths == without_indices(
                old(self).settings@.root_paths,
                index_set(indices@),
            ),
            final(self).settings@.id == old(self).settings@.id,
            final(self).settings@.index_interval_minutes == old(self).settings@.index_interval_minutes,
            final(self).settings_open == old(self).settings_open,
            final(self).conversation@ == old(self).conversation@,
            final(self).current_input@ == old(self).current_input@,
    {
        let ghost paths = self.settings.root_paths.deep_view();
        let ghost idx = index_set(indices@);
        let mut kept: Vec<String> = Vec::new();
        let n = self.settings.root_paths.len();
        let mut j: usize = 0;
        while j < n
            invariant
                n == self.settings.root_paths@.len(),
                paths == self.settings.root_paths.deep_view(),
                idx == index_set(indices@),
                j <= n,
                kept.deep_view() == without_indices(paths.subrange(0, j as int), idx),
            decreases n - j,
        {
            let ghost before = kept.deep_view();
            assert(paths.subrange(0, j as int + 1).drop_last() =~= paths.subrange(0, j as int));
            if !lists_index(indices, j) {
                let p = self.settings.root_paths[j].clone();
                kept.push(p);
                assert(kept.deep_view() =~= before.push(paths[j as int]));
            }
            j = j + 1;
        }
        assert(paths.subrange(0, n as int) =~= paths);
        self.settings.root_paths = kept;
    }

    /// Appends an empty root path for the user to fill in.
    pub fn add_root_path(&mut self)
        ensures
            final(self).settings@.root_paths == old(self).settings@.root_paths.push(Seq::empty()),
            final(self).settings@.id == old(self).settings@.id,
            final(self).settings@.index_interval_minutes == old(self).settings@.index_interval_minutes,
            final(self).settings_open == old(self).settings_open,
            final(self).conversation@ == old(self).conversation@,
            final(self).current_input@ == old(self).current_input@,
    {
        let ghost before = self.settings.root_paths.deep_view();
        self.settings.root_paths.push(String::new());
        assert(self.settings.root_paths.deep_view() =~= before.push(Seq::empty()));
    }

    /// Takes the interval typed in the settings form: a decimal `i32`
    /// replaces the current interval, any other text leaves it as it was.
    pub fn apply_interval_text(&mut self, text: &str)
        ensures
            final(self).settings@.index_interval_minutes == match parsed_i32(text@) {
                Some(v) => v,
                None => old(self).settings@.index_interval_minutes,
            },
            final(self).settings@.id == old(self).settings@.id,
            final(self).settings@.root_paths == old(self).settings@.root_paths,
            final(self).settings_open == old(self).settings_open,
            final(self).conversation@ == old(self).conversation@,
            final(self).current_input@ == old(self).current_input@,
    {
        let parsed = parse_i32(text);
        self.apply_parsed_interval(parsed);
    }

    /// Takes an already parsed interval: a value replaces the current
    /// interval, none leaves it as it was.
    pub fn apply_parsed_interval(&mut self, parsed: Option<i32>)
        ensures
            final(self).settings@.index_interval_minutes == match parsed {
                Some(v) => v as int,
                None => old(self).settings@.index_interval_minutes,
            },
            final(self).settings@.id == old(self).settings@.id,
            final(self).settings@.root_paths == old(self).settings@.root_paths,
            final(self).settings_open == old(self).settings_open,
            final(self).conversation@ == old(self).conversation@,
            final(self).current_input@ == old(self).current_input@,
    {
        if let Some(v) = parsed {
            self.settings.index_interval_minutes = v;
        }
    }

    /// Confirms the settings form: closes it and asks for the edited settings
    /// to be stored.
    pub fn save_settings(&mut self) -> (r: Persist)
        ensures
            r == Persist::Settings,
            !final(self).settings_open,
            final(self).settings@ == old(self).settings@,
            final(self).conversation@ == old(self).conversation@,
            final(self).current_input@ == old(self).current_input@,
    {
        self.settings_open = false;
        Persist::Settings
    }

    /// Abandons the edits of the settings form: the settings become the stored
    /// record again and the form closes.
    pub fn cancel_settings(&mut self, stored: AppSettings)
        ensures
            final(self).settings@ == stored@,
            !final(self).settings_open,
            final(self).conversation@ == old(self).conversation@,
            final(self).current_input@ == old(self).current_input@,
    {
        self.settings = stored;
        self.settings_open = false;
    }
}

} // verus!
