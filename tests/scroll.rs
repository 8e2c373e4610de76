use std::collections::VecDeque;
use twitch_tui::store::{scroll_view, Scrolling};

fn setup() -> VecDeque<i32> {
    VecDeque::from([1, 2, 3, 4, 5])
}

#[test]
fn test_no_scroll_overflow_not_inverted() {
    let mut scroll = Scrolling::new(false);
    assert_eq!(scroll.get_offset(), 0);

    scroll.down();
    assert_eq!(scroll.get_offset(), 0);
}

#[test]
fn scrolling_up_down_and_jump() {
    let mut scroll = Scrolling::new(true);
    assert!(scroll.inverted());
    scroll.up();
    scroll.up();
    assert_eq!(scroll.get_offset(), 2);
    scroll.down();
    assert_eq!(scroll.get_offset(), 1);
    scroll.jump_to(7);
    assert_eq!(scroll.get_offset(), 7);
    assert!(scroll.inverted());
}

#[test]
fn scroll_test_zero_length_input_no_offset() {
    let empty_deq: VecDeque<i32> = scroll_view(VecDeque::from([]), 0, 3);

    assert_eq!(empty_deq, VecDeque::from([]));
}

#[test]
fn scroll_test_no_offset_no_amount() {
    let empty_deq: VecDeque<i32> = scroll_view(VecDeque::from([]), 0, 0);

    assert_eq!(empty_deq, VecDeque::from([]));
}

#[test]
fn scroll_test_offset_1_all_elements() {
    assert_eq!(scroll_view(setup(), 1, 0), VecDeque::from([2, 3, 4, 5]));
}

#[test]
fn scroll_test_no_offset_some_amount() {
    assert_eq!(scroll_view(setup(), 0, 3), VecDeque::from([1, 2, 3]));
}

#[test]
fn scroll_test_some_offset_some_amount() {
    assert_eq!(scroll_view(setup(), 2, 2), VecDeque::from([3, 4]));
}

#[test]
fn scroll_test_offset_and_amount_centered() {
    assert_eq!(scroll_view(setup(), 1, 3), VecDeque::from([2, 3, 4]));
}

#[test]
fn mod_test_zero_length_input_no_offset() {
    let empty_deq: VecDeque<i32> = scroll_view(VecDeque::from([]), 0, 3);

    assert_eq!(empty_deq, VecDeque::from([]));
}

#[test]
fn mod_test_no_offset_no_amount() {
    let empty_deq: VecDeque<i32> = scroll_view(VecDeque::from([]), 0, 0);

    assert_eq!(empty_deq, VecDeque::from([]));
}

#[test]
fn mod_test_offset_1_all_elements() {
    assert_eq!(scroll_view(setup(), 1, 0), VecDeque::from([2, 3, 4, 5]));
}

#[test]
fn mod_test_no_offset_some_amount() {
    assert_eq!(scroll_view(setup(), 0, 3), VecDeque::from([1, 2, 3]));
}

#[test]
fn mod_test_some_offset_some_amount() {
    assert_eq!(scroll_view(setup(), 2, 2), VecDeque::from([3, 4]));
}

#[test]
fn mod_test_offset_and_amount_centered() {
    assert_eq!(scroll_view(setup(), 1, 3), VecDeque::from([2, 3, 4]));
}

#[test]
fn scroll_view_amount_past_end_shows_rest() {
    assert_eq!(scroll_view(setup(), 3, 10), VecDeque::from([4, 5]));
    assert_eq!(scroll_view(setup(), 5, 2), VecDeque::from([]));
    assert_eq!(scroll_view(setup(), 0, 5), setup());
}
