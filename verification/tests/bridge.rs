use apc_mini::element_idx::{BottomButtonIdx, ButtonIdx};
use apc_mini::input::InputEvent;
use apc_mini::midi::{find_port, starts_with, EventQueue};

fn button_event(index: u8, is_pressed: bool) -> InputEvent {
    InputEvent::ButtonEvent {
        idx: ButtonIdx::BottomButtonIdx(BottomButtonIdx::new(index).unwrap()),
        is_pressed,
    }
}

#[test]
fn queue_is_fifo() {
    let mut queue = EventQueue::new();
    let events: Vec<InputEvent> = (0..8).map(|i| button_event(i, i % 2 == 0)).collect();
    for e in &events {
        queue.push(*e);
    }
    assert_eq!(queue.len(), events.len());
    for e in &events {
        assert_eq!(queue.pop(), Some(*e));
    }
    assert_eq!(queue.pop(), None);
}

#[test]
fn queue_interleaved_push_and_pop_keeps_order() {
    let mut queue = EventQueue::new();
    queue.push(button_event(0, true));
    queue.push(button_event(1, true));
    assert_eq!(queue.pop(), Some(button_event(0, true)));
    queue.push(button_event(2, true));
    assert_eq!(queue.pop(), Some(button_event(1, true)));
    assert_eq!(queue.pop(), Some(button_event(2, true)));
    assert_eq!(queue.pop(), None);
}

#[test]
fn empty_queue_reports_empty() {
    let mut queue = EventQueue::new();
    assert!(queue.is_empty());
    assert_eq!(queue.len(), 0);
    assert_eq!(queue.pop(), None);
    queue.push(button_event(3, false));
    assert!(!queue.is_empty());
    assert_eq!(queue.len(), 1);
}

#[test]
fn starts_with_compares_prefixes() {
    assert!(starts_with("APC mini 1", "APC"));
    assert!(starts_with("hello", "he"));
    assert!(starts_with("hello", "hello"));
    assert!(starts_with("hello", ""));
    assert!(!starts_with("he", "hello"));
    assert!(!starts_with("abc", "abd"));
    assert!(!starts_with("", "a"));
}

#[test]
fn find_port_picks_first_match() {
    let names = vec![
        String::from("Through Port"),
        String::from("APC mini 1"),
        String::from("APC mini 2"),
    ];
    assert_eq!(find_port(&names, "APC"), Some(1));
    assert_eq!(find_port(&names, "Through"), Some(0));
    assert_eq!(find_port(&names, "XYZ"), None);
    assert_eq!(find_port(&names, ""), Some(0));
    let empty: Vec<String> = Vec::new();
    assert_eq!(find_port(&empty, "APC"), None);
}
