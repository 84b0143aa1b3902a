use chat_overlay::chat::ChatMessage;
use chat_overlay::poll::ChatBuffer;
use chat_overlay::render::{
    format_line, max_messages_in_view, render, Rgba, TextLine, LINE_HEIGHT, LINE_PADDING,
    TEXT_LEFT, TEXT_TOP,
};
use chat_overlay::window::TransparentWindow;

fn line_message(username: &str, text: &str) -> ChatMessage {
    ChatMessage { username: username.to_string(), text: text.to_string() }
}

fn numbered_messages(count: usize) -> Vec<ChatMessage> {
    (0..count).map(|i| line_message(&format!("user{}", i), &format!("text{}", i))).collect()
}

#[test]
fn layout_constants() {
    assert_eq!(LINE_HEIGHT, 24);
    assert_eq!(LINE_PADDING, 10);
    assert_eq!(TEXT_LEFT, 30);
    assert_eq!(TEXT_TOP, 20);
}

#[test]
fn lines_that_fit_is_height_over_line_advance_rounded_down() {
    assert_eq!(max_messages_in_view(500), 14);
    assert_eq!(max_messages_in_view(0), 0);
    assert_eq!(max_messages_in_view(33), 0);
    assert_eq!(max_messages_in_view(34), 1);
    assert_eq!(max_messages_in_view(67), 1);
    assert_eq!(max_messages_in_view(68), 2);
    assert_eq!(max_messages_in_view(u32::MAX), 126322567);
}

#[test]
fn format_line_joins_name_and_text() {
    assert_eq!(format_line(&line_message("alice", "hi")), "alice: hi");
    assert_eq!(format_line(&line_message("", "")), ": ");
    assert_eq!(format_line(&line_message("a: b", "c")), "a: b: c");
}

#[test]
fn frame_has_translucent_black_background_and_white_text() {
    let frame = render(&vec![], 500);
    assert_eq!(frame.background, Rgba { red: 0, green: 0, blue: 0, alpha: 128 });
    assert_eq!(frame.text_color, Rgba { red: 255, green: 255, blue: 255, alpha: 255 });
    assert!(frame.lines.is_empty());
}

#[test]
fn shows_every_message_when_all_fit() {
    let frame = render(&numbered_messages(3), 500);
    assert_eq!(
        frame.lines,
        vec![
            TextLine { text: "user0: text0".to_string(), x: 30, y: 20 },
            TextLine { text: "user1: text1".to_string(), x: 30, y: 54 },
            TextLine { text: "user2: text2".to_string(), x: 30, y: 88 },
        ]
    );
}

#[test]
fn shows_exactly_as_many_as_fit_when_the_buffer_is_that_long() {
    let frame = render(&numbered_messages(14), 500);
    assert_eq!(frame.lines.len(), 14);
    assert_eq!(frame.lines[0].text, "user0: text0");
    assert_eq!(frame.lines[13].text, "user13: text13");
    assert_eq!(frame.lines[13].y, 20 + 13 * 34);
}

#[test]
fn shows_only_the_most_recent_when_there_are_more_than_fit() {
    let messages = numbered_messages(20);
    let frame = render(&messages, 500);
    assert_eq!(frame.lines.len(), 14);
    for (i, line) in frame.lines.iter().enumerate() {
        assert_eq!(line.text, format!("user{}: text{}", i + 6, i + 6));
        assert_eq!(line.x, 30);
        assert_eq!(line.y, 20 + 34 * i as u32);
    }
}

#[test]
fn a_viewport_too_low_for_one_line_shows_nothing() {
    assert!(render(&numbered_messages(5), 33).lines.is_empty());
    assert!(render(&numbered_messages(5), 0).lines.is_empty());
}

#[test]
fn a_viewport_for_one_line_shows_the_last_message_at_the_top() {
    let frame = render(&numbered_messages(5), 34);
    assert_eq!(frame.lines, vec![TextLine { text: "user4: text4".to_string(), x: 30, y: 20 }]);
}

#[test]
fn paint_uses_the_window_height() {
    let window = TransparentWindow::new();
    let mut buffer = ChatBuffer::new();
    buffer.replace(numbered_messages(15));
    let frame = window.paint(&buffer);
    assert_eq!(frame, render(&numbered_messages(15), 500));
    assert_eq!(frame.lines.len(), 14);
    assert_eq!(frame.lines[0].text, "user1: text1");
}

#[test]
fn every_built_line_is_placed_at_its_own_position() {
    let frame = render(&numbered_messages(3), 500);
    assert_eq!(frame.place_line(0, true), (Some((30, 20)), 1));
    assert_eq!(frame.place_line(1, true), (Some((30, 54)), 2));
    assert_eq!(frame.place_line(2, true), (Some((30, 88)), 3));
}

#[test]
fn a_line_that_was_not_built_is_left_out_and_takes_no_place() {
    let frame = render(&numbered_messages(3), 500);
    assert_eq!(frame.place_line(0, false), (None, 0));
    assert_eq!(frame.place_line(0, true), (Some((30, 20)), 1));
    assert_eq!(frame.place_line(1, false), (None, 1));
    assert_eq!(frame.place_line(1, true), (Some((30, 54)), 2));
}

#[test]
fn no_line_is_placed_beyond_the_frame() {
    let frame = render(&numbered_messages(2), 500);
    assert_eq!(frame.place_line(2, true), (None, 2));
    assert_eq!(frame.place_line(usize::MAX, true), (None, usize::MAX));
    let empty = render(&vec![], 500);
    assert_eq!(empty.place_line(0, true), (None, 0));
}
