use mega::editor::Editor;
use mega::keys::{EscapeSeq, Key};

const DOWN: Key = Key::Special(EscapeSeq::DownArrow);
const RIGHT: Key = Key::Special(EscapeSeq::RightArrow);

fn editor_with(content: &[u8]) -> Editor {
    let mut editor = Editor::new(80, 24);
    editor.open(b"test.txt".to_vec(), content);
    editor
}

fn place_on(editor: &mut Editor, cx: usize, cy: usize) {
    for _ in 0..cy {
        editor.move_cursor(DOWN);
    }
    for _ in 0..cx {
        editor.move_cursor(RIGHT);
    }
    assert_eq!((editor.cx(), editor.cy()), (cx, cy));
}

fn all_lines(editor: &Editor) -> Vec<Vec<u8>> {
    let mut lines = Vec::new();
    for row in 0..editor.line_count() {
        lines.push(editor.line(row).unwrap().clone());
    }
    lines
}

fn all_render(editor: &Editor) -> Vec<Vec<u8>> {
    let mut lines = Vec::new();
    for row in 0..editor.line_count() {
        lines.push(editor.render_line(row).unwrap().clone());
    }
    lines
}

#[test]
fn insert_char_into_an_empty_document_starts_a_line() {
    let mut editor = Editor::new(80, 24);
    editor.insert_char(b'a');
    assert_eq!(all_lines(&editor), vec![b"a".to_vec()]);
    assert_eq!(all_render(&editor), vec![b"a".to_vec()]);
    assert_eq!((editor.cx(), editor.cy()), (1, 0));
    assert!(editor.dirty());
}

#[test]
fn insert_char_on_the_row_after_the_last_line_appends_a_line() {
    let mut editor = editor_with(b"ab");
    place_on(&mut editor, 0, 1);
    editor.insert_char(b'c');
    assert_eq!(all_lines(&editor), vec![b"ab".to_vec(), b"c".to_vec()]);
    assert_eq!((editor.cx(), editor.cy()), (1, 1));
}

#[test]
fn insert_char_in_the_middle_of_a_line() {
    let mut editor = editor_with(b"ac\nxyz");
    place_on(&mut editor, 1, 0);
    assert!(!editor.dirty());
    editor.insert_char(b'b');
    assert_eq!(all_lines(&editor), vec![b"abc".to_vec(), b"xyz".to_vec()]);
    assert_eq!(all_render(&editor), vec![b"abc".to_vec(), b"xyz".to_vec()]);
    assert_eq!((editor.cx(), editor.cy()), (2, 0));
    assert!(editor.dirty());
}

#[test]
fn insert_char_lands_at_the_render_column() {
    let mut editor = editor_with(b"\tab");
    place_on(&mut editor, 2, 0);
    let rx = editor.convert_cx_to_rx();
    assert_eq!(rx, 9);
    editor.insert_char(b'X');
    assert_eq!(editor.line(0), Some(&b"\taXb".to_vec()));
    assert_eq!(editor.render_line(0), Some(&b"        aXb".to_vec()));
    assert_eq!(editor.render_line(0).unwrap()[rx], b'X');
    assert_eq!(editor.convert_cx_to_rx(), 10);
}

#[test]
fn inserted_tab_is_expanded() {
    let mut editor = editor_with(b"ab");
    place_on(&mut editor, 1, 0);
    editor.insert_char(b'\t');
    assert_eq!(editor.line(0), Some(&b"a\tb".to_vec()));
    assert_eq!(editor.render_line(0), Some(&b"a       b".to_vec()));
    assert_eq!(editor.cx(), 2);
    assert_eq!(editor.convert_cx_to_rx(), 8);
}

#[test]
fn inserting_before_a_tab_moves_its_start_and_keeps_its_stop() {
    let mut editor = editor_with(b"\tz");
    assert_eq!(editor.render_line(0), Some(&b"        z".to_vec()));
    editor.insert_char(b'x');
    assert_eq!(editor.line(0), Some(&b"x\tz".to_vec()));
    assert_eq!(editor.render_line(0), Some(&b"x       z".to_vec()));
    assert_eq!((editor.cx(), editor.convert_cx_to_rx()), (1, 1));
    editor.move_cursor(RIGHT);
    assert_eq!((editor.cx(), editor.convert_cx_to_rx()), (2, 8));
}

#[test]
fn insert_newline_at_column_zero_puts_an_empty_line_above() {
    let mut editor = editor_with(b"ab\ncd");
    place_on(&mut editor, 0, 1);
    editor.insert_newline();
    assert_eq!(
        all_lines(&editor),
        vec![b"ab".to_vec(), b"".to_vec(), b"cd".to_vec()]
    );
    assert_eq!(all_render(&editor), all_lines(&editor));
    assert_eq!((editor.cx(), editor.cy()), (0, 2));
    assert!(editor.dirty());
}

#[test]
fn insert_newline_splits_the_line_at_the_cursor() {
    let mut editor = editor_with(b"ab\tcd\nxyz");
    place_on(&mut editor, 3, 0);
    editor.insert_newline();
    assert_eq!(
        all_lines(&editor),
        vec![b"ab\t".to_vec(), b"cd".to_vec(), b"xyz".to_vec()]
    );
    assert_eq!(
        all_render(&editor),
        vec![b"ab      ".to_vec(), b"cd".to_vec(), b"xyz".to_vec()]
    );
    assert_eq!((editor.cx(), editor.cy()), (0, 1));
    assert!(editor.dirty());
}

#[test]
fn insert_newline_at_the_end_of_a_line_puts_an_empty_line_below() {
    let mut editor = editor_with(b"ab");
    place_on(&mut editor, 2, 0);
    editor.insert_newline();
    assert_eq!(all_lines(&editor), vec![b"ab".to_vec(), b"".to_vec()]);
    assert_eq!((editor.cx(), editor.cy()), (0, 1));
}

#[test]
fn insert_newline_in_an_empty_document() {
    let mut editor = Editor::new(80, 24);
    editor.insert_newline();
    assert_eq!(all_lines(&editor), vec![b"".to_vec()]);
    assert_eq!((editor.cx(), editor.cy()), (0, 1));
}

#[test]
fn backspace_takes_out_the_character_before_the_cursor() {
    let mut editor = editor_with(b"abc");
    place_on(&mut editor, 2, 0);
    editor.backspace_char();
    assert_eq!(all_lines(&editor), vec![b"ac".to_vec()]);
    assert_eq!(all_render(&editor), vec![b"ac".to_vec()]);
    assert_eq!((editor.cx(), editor.cy()), (1, 0));
    assert!(editor.dirty());
}

#[test]
fn backspace_over_a_tab_takes_out_its_whole_expansion() {
    let mut editor = editor_with(b"a\tb");
    place_on(&mut editor, 2, 0);
    editor.backspace_char();
    assert_eq!(all_lines(&editor), vec![b"ab".to_vec()]);
    assert_eq!(all_render(&editor), vec![b"ab".to_vec()]);
    assert_eq!((editor.cx(), editor.convert_cx_to_rx()), (1, 1));
}

#[test]
fn backspace_at_the_start_of_a_line_joins_it_to_the_line_before() {
    let mut editor = editor_with(b"ab\ncd\nef");
    place_on(&mut editor, 0, 1);
    editor.backspace_char();
    assert_eq!(all_lines(&editor), vec![b"abcd".to_vec(), b"ef".to_vec()]);
    assert_eq!(all_render(&editor), all_lines(&editor));
    assert_eq!((editor.cx(), editor.cy()), (2, 0));
    assert!(editor.dirty());
}

#[test]
fn joined_line_is_rendered_anew() {
    let mut editor = editor_with(b"abc\n\tx");
    place_on(&mut editor, 0, 1);
    editor.backspace_char();
    assert_eq!(all_lines(&editor), vec![b"abc\tx".to_vec()]);
    assert_eq!(all_render(&editor), vec![b"abc     x".to_vec()]);
}

#[test]
fn backspace_at_the_start_of_the_document_does_nothing() {
    let mut editor = editor_with(b"ab");
    editor.backspace_char();
    assert_eq!(all_lines(&editor), vec![b"ab".to_vec()]);
    assert_eq!((editor.cx(), editor.cy()), (0, 0));
    assert!(!editor.dirty());
}

#[test]
fn backspace_on_the_row_after_the_last_line_does_nothing() {
    let mut editor = editor_with(b"ab");
    place_on(&mut editor, 0, 1);
    editor.backspace_char();
    assert_eq!(all_lines(&editor), vec![b"ab".to_vec()]);
    assert_eq!((editor.cx(), editor.cy()), (0, 1));
    assert!(!editor.dirty());
}

#[test]
fn newline_at_column_zero_then_backspace_restores_line_and_cursor() {
    let mut editor = editor_with(b"ab\n\tcd\nef");
    for row in 0..3 {
        let mut editor = editor_with(b"ab\n\tcd\nef");
        place_on(&mut editor, 0, row);
        let lines = all_lines(&editor);
        editor.insert_newline();
        assert_eq!(editor.line_count(), 4);
        assert_eq!((editor.cx(), editor.cy()), (0, row + 1));
        editor.backspace_char();
        assert_eq!(all_lines(&editor), lines);
        assert_eq!(all_render(&editor), vec![b"ab".to_vec(), b"        cd".to_vec(), b"ef".to_vec()]);
        assert_eq!((editor.cx(), editor.cy()), (0, row));
    }
    place_on(&mut editor, 0, 3);
    editor.insert_newline();
    editor.backspace_char();
    assert_eq!(editor.line_count(), 4);
}

#[test]
fn delete_takes_out_the_character_under_the_cursor() {
    let mut editor = editor_with(b"abc");
    place_on(&mut editor, 1, 0);
    editor.delete_char();
    assert_eq!(all_lines(&editor), vec![b"ac".to_vec()]);
    assert_eq!((editor.cx(), editor.cy()), (1, 0));
}

#[test]
fn delete_at_the_end_of_a_line_joins_the_next_line() {
    let mut editor = editor_with(b"ab\ncd");
    place_on(&mut editor, 2, 0);
    editor.delete_char();
    assert_eq!(all_lines(&editor), vec![b"abcd".to_vec()]);
    assert_eq!((editor.cx(), editor.cy()), (2, 0));
}

#[test]
fn delete_at_the_end_of_the_last_line_only_moves_the_cursor() {
    let mut editor = editor_with(b"ab\ncd");
    place_on(&mut editor, 2, 1);
    editor.delete_char();
    assert_eq!(all_lines(&editor), vec![b"ab".to_vec(), b"cd".to_vec()]);
    assert_eq!((editor.cx(), editor.cy()), (0, 2));
    assert!(!editor.dirty());
}

#[test]
fn render_lines_stay_aligned_with_lines() {
    let mut editor = editor_with(b"a\tb\n\t\tc");
    place_on(&mut editor, 1, 0);
    editor.insert_newline();
    editor.insert_char(b'q');
    editor.move_cursor(DOWN);
    editor.backspace_char();
    editor.delete_char();
    let lines = all_lines(&editor);
    let render = all_render(&editor);
    assert_eq!(lines.len(), render.len());
    for row in 0..lines.len() {
        assert_eq!(render[row], mega::row::render_row(&lines[row]));
    }
}
