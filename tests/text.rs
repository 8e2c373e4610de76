use twitch_tui::config::Alignment;
use twitch_tui::textutil::{align_text, first_similarity, get_cursor_position, wrap_message};
use twitch_tui::widgets::{title_spans, TitleStyle};

#[test]
fn test_text_align_left() {
    assert_eq!(align_text("a", Alignment::Left, 10), "a".to_string());
    assert_eq!(align_text("a", Alignment::Left, 1), "a".to_string());
}

#[test]
fn test_text_align_right() {
    assert_eq!(
        align_text("a", Alignment::Right, 10),
        format!("{}{}", " ".repeat(9), "a")
    );
    assert_eq!(align_text("a", Alignment::Right, 1), "a".to_string());
    assert_eq!(align_text("你好", Alignment::Right, 5), " 你好");
    assert_eq!(align_text("👑123", Alignment::Right, 6), " 👑123");
}

#[test]
fn test_text_align_center() {
    assert_eq!(
        align_text("a", Alignment::Center, 11),
        format!("{}{}{}", " ".repeat(5), "a", " ".repeat(5))
    );
    assert_eq!(align_text("a", Alignment::Center, 1), "a".to_string());
    assert_eq!(align_text("你好", Alignment::Center, 6), " 你好 ");
    assert_eq!(align_text("👑123", Alignment::Center, 7), " 👑123 ");
}

#[test]
fn align_text_wider_than_column_is_not_cut() {
    assert_eq!(align_text("abcdef", Alignment::Right, 3), "abcdef");
}

#[test]
fn test_get_cursor_position_with_single_byte_graphemes() {
    let text = "never gonna give you up";

    assert_eq!(get_cursor_position(text, 0), 0);
    assert_eq!(get_cursor_position(text, 1), 1);
    assert_eq!(get_cursor_position(text, 3), 3);
}

#[test]
fn test_get_cursor_position_with_three_byte_graphemes() {
    let text = "绝对不会放弃你";

    assert_eq!(get_cursor_position(text, 0), 0);
    assert_eq!(get_cursor_position(text, 3), 2);
    assert_eq!(get_cursor_position(text, 9), 6);
}

#[test]
fn cursor_at_end_counts_every_grapheme() {
    assert_eq!(get_cursor_position("ab你", 5), 4);
}

#[test]
fn test_2_dimensional_vector_to_spans() {
    let s = title_spans(&[TitleStyle::Combined("Time".to_string(), "Some time".to_string())]);
    let width: usize = s.iter().map(|span| span.content.len()).sum();

    assert_eq!(width, "[ Time: Some time ]".len());
}

#[test]
fn title_spans_separate_parts_and_style_labels() {
    let s = title_spans(&[
        TitleStyle::Single("Debug".to_string()),
        TitleStyle::Combined("Channel".to_string(), "foo".to_string()),
    ]);
    let texts: Vec<&str> = s.iter().map(|span| span.content.as_str()).collect();
    assert_eq!(texts, vec!["[ ", "Debug", " ]", " [ ", "Channel", ": foo ]"]);
    let styled: Vec<bool> = s.iter().map(|span| span.styled).collect();
    assert_eq!(styled, vec![false, true, false, false, true, false]);
}

#[test]
fn test_first_similarity_some_output() {
    let v = vec!["Nope".to_string()];

    let output = first_similarity(&v, "No");

    assert_eq!(output, Some("Nope".to_string()));
}

#[test]
fn test_first_similarity_no_output() {
    let v = vec!["Something".to_string()];

    let output = first_similarity(&v, "blah");

    assert_eq!(output, None);
}

#[test]
fn test_first_similarity_no_input_no_output() {
    let output = first_similarity(&[], "asdf");

    assert_eq!(output, None);
}

#[test]
fn first_similarity_takes_first_match_only_if_longer() {
    let v = vec!["ab".to_string(), "abc".to_string()];
    assert_eq!(first_similarity(&v, "ab"), None);
    assert_eq!(first_similarity(&v, "a"), Some("ab".to_string()));
}

#[test]
fn messages_wrap_to_the_column() {
    assert_eq!(wrap_message("beep boop", 4), (2, "beep\nboop".to_string()));
    assert_eq!(wrap_message("hi", 10), (1, "hi".to_string()));
}
