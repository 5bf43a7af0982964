use ricedq::weights::click_item::{BtnMsg, ClickItem};
use ricedq::weights::Status;

#[derive(Debug, Clone, PartialEq)]
enum Outer {
    Select(usize),
}

#[test]
fn press_then_release_emits_one_message() {
    let item = ClickItem::new(3usize, Outer::Select);
    let mut shell: Vec<Outer> = Vec::new();
    let r = item.on_event(Status::Captured, Vec::new(), &mut shell);
    assert_eq!(r, Status::Captured);
    assert!(shell.is_empty());
    let r = item.on_event(Status::Captured, vec![BtnMsg], &mut shell);
    assert_eq!(r, Status::Captured);
    assert_eq!(shell, vec![Outer::Select(3)]);
}

#[test]
fn press_without_release_emits_nothing() {
    let item = ClickItem::new(1usize, Outer::Select);
    let mut shell: Vec<Outer> = Vec::new();
    item.on_event(Status::Captured, Vec::new(), &mut shell);
    assert!(shell.is_empty());
}

#[test]
fn ignored_event_emits_nothing() {
    let item = ClickItem::new(1usize, Outer::Select);
    let mut shell: Vec<Outer> = Vec::new();
    let r = item.on_event(Status::Ignored, vec![BtnMsg], &mut shell);
    assert_eq!(r, Status::Ignored);
    assert!(shell.is_empty());
}

#[test]
fn each_inner_message_is_mapped() {
    let item = ClickItem::new(5usize, Outer::Select);
    let mut shell: Vec<Outer> = vec![Outer::Select(0)];
    item.on_event(Status::Captured, vec![BtnMsg, BtnMsg], &mut shell);
    assert_eq!(shell, vec![Outer::Select(0), Outer::Select(5), Outer::Select(5)]);
    assert_eq!(item.click_id(), 5);
}
