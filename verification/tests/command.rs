use mega::command::{
    move_cursor, push_bytes, push_decimal, push_text, CLEAR_REST_OF_LINE, CLEAR_SCREEN,
    HIDE_CURSOR, INVERTED_COLORS, LINE_BREAK, MOVE_CURSOR_TOP_LEFT, NORMAL_COLORS, SHOW_CURSOR,
};

#[test]
fn escape_vocabulary_is_exact() {
    assert_eq!(CLEAR_SCREEN.as_bytes(), b"\x1b[2J");
    assert_eq!(CLEAR_REST_OF_LINE.as_bytes(), b"\x1b[K");
    assert_eq!(MOVE_CURSOR_TOP_LEFT.as_bytes(), b"\x1b[H");
    assert_eq!(HIDE_CURSOR.as_bytes(), b"\x1b[?25l");
    assert_eq!(SHOW_CURSOR.as_bytes(), b"\x1b[?25h");
    assert_eq!(INVERTED_COLORS.as_bytes(), b"\x1b[7m");
    assert_eq!(NORMAL_COLORS.as_bytes(), b"\x1b[m");
    assert_eq!(LINE_BREAK.as_bytes(), b"\r\n");
}

#[test]
fn move_cursor_formats_row_then_column() {
    assert_eq!(move_cursor(1, 1), b"\x1b[1;1H".to_vec());
    assert_eq!(move_cursor(3, 5), b"\x1b[3;5H".to_vec());
    assert_eq!(move_cursor(24, 80), b"\x1b[24;80H".to_vec());
    assert_eq!(move_cursor(0, 0), b"\x1b[0;0H".to_vec());
}

#[test]
fn move_cursor_formats_the_largest_values() {
    assert_eq!(
        move_cursor(u32::MAX, 1000),
        b"\x1b[4294967295;1000H".to_vec()
    );
}

#[test]
fn push_decimal_writes_digits_in_order() {
    let mut buf = b"n=".to_vec();
    push_decimal(&mut buf, 0);
    assert_eq!(buf, b"n=0".to_vec());
    push_decimal(&mut buf, 9);
    push_decimal(&mut buf, 10);
    push_decimal(&mut buf, 4096);
    assert_eq!(buf, b"n=09104096".to_vec());
}

#[test]
fn push_decimal_writes_the_largest_value() {
    let mut buf = Vec::new();
    push_decimal(&mut buf, u128::MAX);
    assert_eq!(buf, b"340282366920938463463374607431768211455".to_vec());
}

#[test]
fn push_text_and_bytes_append() {
    let mut buf = b"a".to_vec();
    push_text(&mut buf, "bc");
    push_bytes(&mut buf, &vec![b'd', 0, 255]);
    push_text(&mut buf, "");
    assert_eq!(buf, vec![b'a', b'b', b'c', b'd', 0, 255]);
}
