use ricedq::weights::msg_edit::{MessageEdit, Msg, State};
use ricedq::weights::Status;

fn edit(s: &str) -> Vec<Msg> {
    vec![Msg::OnEdit(s.to_string())]
}

#[test]
fn new_state_shows_nothing() {
    let state = State::new();
    assert_eq!(state.value(), "");
}

#[test]
fn edit_replaces_the_text() {
    let editor = MessageEdit::new(|s: String| s);
    let mut state = State::new();
    let mut shell: Vec<String> = Vec::new();
    assert_eq!(editor.on_event(&mut state, Status::Captured, edit("hel"), &mut shell), Status::Captured);
    assert_eq!(state.value(), "hel");
    editor.on_event(&mut state, Status::Captured, edit("hello"), &mut shell);
    assert_eq!(state.value(), "hello");
    assert!(shell.is_empty());
}

#[test]
fn send_hands_out_the_last_edit_once() {
    let editor = MessageEdit::new(|s: String| format!("<{}>", s));
    let mut state = State::new();
    let mut shell: Vec<String> = Vec::new();
    editor.on_event(&mut state, Status::Captured, edit("h"), &mut shell);
    editor.on_event(&mut state, Status::Captured, edit("hello"), &mut shell);
    let r = editor.on_event(&mut state, Status::Captured, vec![Msg::Send], &mut shell);
    assert_eq!(r, Status::Captured);
    assert_eq!(shell, vec!["<hello>".to_string()]);
    assert_eq!(state.value(), "");
    editor.on_event(&mut state, Status::Captured, vec![Msg::Send], &mut shell);
    assert_eq!(shell.len(), 1);
}

#[test]
fn send_without_edit_emits_nothing() {
    let editor = MessageEdit::new(|s: String| s);
    let mut state = State::new();
    let mut shell: Vec<String> = Vec::new();
    let r = editor.on_event(&mut state, Status::Captured, vec![Msg::Send], &mut shell);
    assert_eq!(r, Status::Captured);
    assert!(shell.is_empty());
    assert_eq!(state.value(), "");
}

#[test]
fn ignored_event_changes_nothing() {
    let editor = MessageEdit::new(|s: String| s);
    let mut state = State::new();
    let mut shell: Vec<String> = Vec::new();
    editor.on_event(&mut state, Status::Captured, edit("keep"), &mut shell);
    let r = editor.on_event(&mut state, Status::Ignored, edit("lost"), &mut shell);
    assert_eq!(r, Status::Ignored);
    assert_eq!(state.value(), "keep");
    let r = editor.on_event(&mut state, Status::Ignored, vec![Msg::Send], &mut shell);
    assert_eq!(r, Status::Ignored);
    assert!(shell.is_empty());
    assert_eq!(state.value(), "keep");
}

#[test]
fn captured_event_without_message_changes_nothing() {
    let editor = MessageEdit::new(|s: String| s);
    let mut state = State::new();
    let mut shell: Vec<String> = Vec::new();
    editor.on_event(&mut state, Status::Captured, edit("a"), &mut shell);
    let r = editor.on_event(&mut state, Status::Captured, Vec::new(), &mut shell);
    assert_eq!(r, Status::Captured);
    assert_eq!(state.value(), "a");
    assert!(shell.is_empty());
}

#[test]
fn only_the_first_inner_message_counts() {
    let editor = MessageEdit::new(|s: String| s);
    let mut state = State::new();
    let mut shell: Vec<String> = Vec::new();
    let msgs = vec![Msg::OnEdit("first".to_string()), Msg::OnEdit("second".to_string())];
    editor.on_event(&mut state, Status::Captured, msgs, &mut shell);
    assert_eq!(state.value(), "first");
}

#[test]
fn send_appends_after_existing_messages() {
    let editor = MessageEdit::new(|s: String| s.len());
    let mut state = State::new();
    let mut shell: Vec<usize> = vec![7];
    editor.on_event(&mut state, Status::Captured, edit("abc"), &mut shell);
    editor.on_event(&mut state, Status::Captured, vec![Msg::Send], &mut shell);
    assert_eq!(shell, vec![7, 3]);
}
