use indexedrag::{default_conversation, default_settings, stub_reply, ChatSession, Persist};

fn fresh() -> ChatSession {
    ChatSession::new(default_conversation(), default_settings())
}

#[test]
fn stub_reply_text_exact() {
    assert_eq!(stub_reply("hello"), "(Stub) LLM Response to: 'hello'");
    assert_eq!(stub_reply(""), "(Stub) LLM Response to: ''");
}

#[test]
fn new_session_is_idle() {
    let s = fresh();
    assert!(s.current_input.is_empty());
    assert!(!s.settings_open);
    assert_eq!(s.conversation.messages.len(), 1);
}

#[test]
fn call_llm_api_stub_appends_assistant_reply() {
    let mut s = fresh();
    s.call_llm_api_stub("why");
    assert_eq!(s.conversation.messages.len(), 2);
    assert_eq!(s.conversation.messages[1].role, "assistant");
    assert_eq!(s.conversation.messages[1].content, "(Stub) LLM Response to: 'why'");
}

#[test]
fn send_appends_user_and_reply_and_clears_input() {
    let mut s = fresh();
    s.current_input = "What is RAG?".to_string();
    assert_eq!(s.send_current_input(), Persist::Conversation);
    let m = &s.conversation.messages;
    assert_eq!(m.len(), 3);
    assert_eq!(m[0].role, "system");
    assert_eq!(m[1].role, "user");
    assert_eq!(m[1].content, "What is RAG?");
    assert_eq!(m[2].role, "assistant");
    assert_eq!(m[2].content, "(Stub) LLM Response to: 'What is RAG?'");
    assert!(s.current_input.is_empty());
    assert_eq!(s.conversation.id, 1);
}

#[test]
fn send_empty_input_still_records_both() {
    let mut s = fresh();
    s.send_current_input();
    assert_eq!(s.conversation.messages.len(), 3);
    assert_eq!(s.conversation.messages[1].content, "");
    assert_eq!(s.conversation.messages[2].content, "(Stub) LLM Response to: ''");
}

#[test]
fn toggle_settings_flips() {
    let mut s = fresh();
    s.toggle_settings();
    assert!(s.settings_open);
    s.toggle_settings();
    assert!(!s.settings_open);
}

#[test]
fn add_root_path_appends_empty() {
    let mut s = fresh();
    s.add_root_path();
    assert_eq!(s.settings.root_paths, vec!["/path/to/somewhere".to_string(), String::new()]);
}

#[test]
fn remove_root_paths_keeps_others_in_order() {
    let mut s = fresh();
    s.settings.root_paths = vec!["a", "b", "c", "d", "e"].into_iter().map(String::from).collect();
    s.remove_root_paths(&vec![1, 3]);
    assert_eq!(s.settings.root_paths, vec!["a".to_string(), "c".to_string(), "e".to_string()]);
}

#[test]
fn remove_root_paths_ignores_out_of_range_and_repeats() {
    let mut s = fresh();
    s.settings.root_paths = vec!["a".to_string(), "b".to_string()];
    s.remove_root_paths(&vec![9, 0, 0]);
    assert_eq!(s.settings.root_paths, vec!["b".to_string()]);
    s.remove_root_paths(&vec![]);
    assert_eq!(s.settings.root_paths, vec!["b".to_string()]);
    s.remove_root_paths(&vec![0]);
    assert!(s.settings.root_paths.is_empty());
}

#[test]
fn interval_text_parses_decimal() {
    let mut s = fresh();
    s.apply_interval_text("15");
    assert_eq!(s.settings.index_interval_minutes, 15);
    s.apply_interval_text("+20");
    assert_eq!(s.settings.index_interval_minutes, 20);
    s.apply_interval_text("-2147483648");
    assert_eq!(s.settings.index_interval_minutes, i32::MIN);
    s.apply_interval_text("2147483647");
    assert_eq!(s.settings.index_interval_minutes, i32::MAX);
}

#[test]
fn interval_text_rejects_other_text() {
    let mut s = fresh();
    for bad in ["", "abc", " 5", "5 ", "2147483648", "-", "+", "1_000", "3.5"] {
        s.apply_interval_text(bad);
        assert_eq!(s.settings.index_interval_minutes, 60, "{bad:?}");
    }
}

#[test]
fn apply_parsed_interval_cases() {
    let mut s = fresh();
    s.apply_parsed_interval(None);
    assert_eq!(s.settings.index_interval_minutes, 60);
    s.apply_parsed_interval(Some(0));
    assert_eq!(s.settings.index_interval_minutes, 0);
}

#[test]
fn save_settings_closes_and_asks_to_store() {
    let mut s = fresh();
    s.toggle_settings();
    s.apply_interval_text("30");
    assert_eq!(s.save_settings(), Persist::Settings);
    assert!(!s.settings_open);
    assert_eq!(s.settings.index_interval_minutes, 30);
}

#[test]
fn cancel_settings_restores_stored_record() {
    let mut s = fresh();
    s.toggle_settings();
    s.add_root_path();
    s.apply_interval_text("5");
    s.cancel_settings(default_settings());
    assert!(!s.settings_open);
    assert_eq!(s.settings.root_paths, vec!["/path/to/somewhere".to_string()]);
    assert_eq!(s.settings.index_interval_minutes, 60);
}
