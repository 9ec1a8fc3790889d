//! The text box: layout, caret movement, editing and selection.

use resource_core::FormattedText;
use resource_core::HorizontalDirection;
use resource_core::Position;
use resource_core::SelectionRange;
use resource_core::TextBox;
use resource_core::TextBoxBuilder;
use resource_core::TextBoxKey;
use resource_core::VerticalDirection;

fn text_of(text_box: &TextBox) -> String {
    text_box.formatted_text().get_raw_text().iter().collect()
}

fn box_with(text: &str) -> TextBox {
    TextBoxBuilder::new().with_text(text.to_string()).build().0
}

#[test]
fn layout_splits_at_newlines() {
    let mut formatted = FormattedText::new();
    assert!(formatted.get_lines().is_empty());

    formatted.set_text("ab\ncd".chars().collect());
    formatted.build();
    let lines = formatted.get_lines();
    assert_eq!(lines.len(), 2);
    assert_eq!((lines[0].begin, lines[0].end), (0, 2));
    assert_eq!((lines[1].begin, lines[1].end), (3, 5));

    formatted.set_text("\n".chars().collect());
    formatted.build();
    let lines = formatted.get_lines();
    assert_eq!(lines.len(), 2);
    assert_eq!((lines[0].begin, lines[0].end), (0, 0));
    assert_eq!((lines[1].begin, lines[1].end), (1, 1));
}

#[test]
fn builder_carries_text_and_font() {
    let (text_box, font) = TextBoxBuilder::new()
        .with_font(42)
        .with_text("hello".to_string())
        .build();
    assert_eq!(font, Some(42));
    assert_eq!(text_of(&text_box), "hello");
    assert_eq!(text_box.caret_position(), Position { line: 0, offset: 0 });
    assert_eq!(text_box.selection_range(), None);
}

#[test]
fn caret_moves_right_across_line_ends_and_stops_at_the_end() {
    let mut text_box = box_with("ab\ncd");
    text_box.move_caret_x(2, HorizontalDirection::Right);
    assert_eq!(text_box.caret_position(), Position { line: 0, offset: 2 });

    // One more step wraps to the start of the next line.
    text_box.move_caret_x(1, HorizontalDirection::Right);
    assert_eq!(text_box.caret_position(), Position { line: 1, offset: 0 });

    // Far past the end: the caret stops at the end of the last line.
    text_box.move_caret_x(100, HorizontalDirection::Right);
    assert_eq!(text_box.caret_position(), Position { line: 1, offset: 2 });
}

#[test]
fn caret_moves_left_across_line_ends_and_stops_at_the_origin() {
    let mut text_box = box_with("ab\ncd");
    text_box.move_caret_x(100, HorizontalDirection::Right);
    text_box.move_caret_x(3, HorizontalDirection::Left);
    assert_eq!(text_box.caret_position(), Position { line: 0, offset: 2 });

    text_box.move_caret_x(100, HorizontalDirection::Left);
    assert_eq!(text_box.caret_position(), Position { line: 0, offset: 0 });
}

#[test]
fn caret_moves_vertically_with_clamping() {
    let mut text_box = box_with("a\nb\nc");
    text_box.move_caret_y(2, VerticalDirection::Down);
    assert_eq!(text_box.caret_position().line, 2);
    text_box.move_caret_y(100, VerticalDirection::Down);
    assert_eq!(text_box.caret_position().line, 2);
    text_box.move_caret_y(1, VerticalDirection::Up);
    assert_eq!(text_box.caret_position().line, 1);
    text_box.move_caret_y(100, VerticalDirection::Up);
    assert_eq!(text_box.caret_position().line, 0);
}

#[test]
fn caret_movement_on_empty_text_stays_at_the_origin() {
    let mut text_box = TextBox::new();
    text_box.move_caret_x(5, HorizontalDirection::Right);
    assert_eq!(text_box.caret_position(), Position { line: 0, offset: 0 });
    text_box.move_caret_y(5, VerticalDirection::Down);
    assert_eq!(text_box.caret_position(), Position { line: 0, offset: 0 });
}

#[test]
fn absolute_position_caps_the_offset_at_the_line_length() {
    let mut text_box = box_with("ab\ncd");
    assert_eq!(text_box.get_absolute_position(), Some(0));
    text_box.move_caret_x(1, HorizontalDirection::Right);
    assert_eq!(text_box.get_absolute_position(), Some(1));

    // After moving down from a long line the offset can exceed the line;
    // the absolute position caps it.
    let mut tall = box_with("abcd\nx");
    tall.move_caret_x(4, HorizontalDirection::Right);
    tall.move_caret_y(1, VerticalDirection::Down);
    assert_eq!(tall.get_absolute_position(), Some(5 + 1));
}

#[test]
fn typed_characters_enter_at_the_caret() {
    let mut text_box = box_with("ac");
    text_box.move_caret_x(1, HorizontalDirection::Right);
    text_box.insert_char('b');
    assert_eq!(text_of(&text_box), "abc");
    assert_eq!(text_box.caret_position(), Position { line: 0, offset: 2 });

    // Control characters are ignored.
    text_box.insert_char('\u{7}');
    text_box.insert_char('\n');
    assert_eq!(text_of(&text_box), "abc");
}

#[test]
fn removal_deletes_around_the_caret() {
    let mut text_box = box_with("abc");
    text_box.move_caret_x(1, HorizontalDirection::Right);

    text_box.remove_char(HorizontalDirection::Right);
    assert_eq!(text_of(&text_box), "ac");

    text_box.remove_char(HorizontalDirection::Left);
    assert_eq!(text_of(&text_box), "c");
    assert_eq!(text_box.caret_position(), Position { line: 0, offset: 0 });

    // At the very beginning there is nothing to the left to remove.
    text_box.remove_char(HorizontalDirection::Left);
    assert_eq!(text_of(&text_box), "c");

    // At the very end there is nothing to the right to remove.
    text_box.move_caret_x(1, HorizontalDirection::Right);
    text_box.remove_char(HorizontalDirection::Right);
    assert_eq!(text_of(&text_box), "c");
}

#[test]
fn editing_keys_drive_the_caret_and_removals() {
    let mut text_box = box_with("ab");
    text_box.handle_key(TextBoxKey::Right);
    assert_eq!(text_box.caret_position(), Position { line: 0, offset: 1 });
    text_box.handle_key(TextBoxKey::Back);
    assert_eq!(text_of(&text_box), "b");
    text_box.handle_key(TextBoxKey::Delete);
    assert_eq!(text_of(&text_box), "");
    text_box.handle_text('z');
    assert_eq!(text_of(&text_box), "z");
}

#[test]
fn pointer_selection_follows_press_drag_release() {
    let mut text_box = box_with("ab\ncd");
    let begin = Position { line: 0, offset: 1 };
    let end = Position { line: 1, offset: 2 };

    text_box.press_at(Some(begin));
    assert_eq!(text_box.caret_position(), begin);
    assert_eq!(
        text_box.selection_range(),
        Some(SelectionRange { begin, end: begin })
    );

    text_box.drag_to(Some(end));
    assert_eq!(text_box.selection_range(), Some(SelectionRange { begin, end }));

    text_box.release_pointer();
    assert_eq!(text_box.selection_range(), Some(SelectionRange { begin, end }));

    // A further drag after release changes nothing.
    text_box.drag_to(Some(begin));
    assert_eq!(text_box.selection_range(), Some(SelectionRange { begin, end }));

    // A press that hits no text clears the selection.
    text_box.press_at(None);
    assert_eq!(text_box.selection_range(), None);
}

#[test]
fn get_text_len_counts_characters() {
    let text_box = box_with("ab\ncd");
    assert_eq!(text_box.get_text_len(), 5);
    assert_eq!(TextBox::new().get_text_len(), 0);
}
