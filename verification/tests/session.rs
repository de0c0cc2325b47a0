use mega::editor::Editor;
use mega::keys::{EscapeSeq, Key, BACKSPACE, ENTER};
use mega::session::Action;
use mega::state::Mode;

const CTRL_Q: Key = Key::Char(17);
const CTRL_S: Key = Key::Char(19);
const CTRL_L: Key = Key::Char(12);
const CTRL_H: Key = Key::Char(8);
const ESC: Key = Key::Special(EscapeSeq::Escape);

fn is_draw(action: &Action) -> bool {
    matches!(action, Action::Draw(_))
}

fn is_quit(action: &Action) -> bool {
    matches!(action, Action::Quit)
}

fn typed(editor: &mut Editor, text: &[u8]) {
    for &c in text {
        assert!(is_draw(&editor.process_keypress(Key::Char(c), 0)));
    }
}

fn lines(editor: &Editor) -> Vec<Vec<u8>> {
    (0..editor.line_count())
        .map(|row| editor.line(row).unwrap().clone())
        .collect()
}

#[test]
fn start_sets_the_help_message() {
    let mut editor = Editor::new(80, 24);
    let action = editor.start(7);
    assert!(is_draw(&action));
    assert_eq!(
        editor.status_message(),
        &b"HELP: Ctrl-S to save | Ctrl-Q to quit".to_vec()
    );
    assert_eq!(editor.mode(), Mode::Edit);
    assert_eq!(editor.quit_times(), 3);
}

#[test]
fn quit_key_leaves_a_clean_document_at_once() {
    let mut editor = Editor::new(80, 24);
    editor.open(b"f".to_vec(), b"text");
    editor.start(0);
    assert!(is_quit(&editor.process_keypress(CTRL_Q, 1)));
}

#[test]
fn quit_key_on_a_dirty_document_warns_twice_then_leaves() {
    let mut editor = Editor::new(80, 24);
    editor.start(0);
    typed(&mut editor, b"x");
    assert!(editor.dirty());

    assert!(is_draw(&editor.process_keypress(CTRL_Q, 10)));
    assert_eq!(
        editor.status_message(),
        &b"WARNING!!! File has unsaved changes. Press Ctrl-Q 2 more times to quit.".to_vec()
    );
    assert_eq!(editor.quit_times(), 2);

    assert!(is_draw(&editor.process_keypress(CTRL_Q, 20)));
    assert_eq!(
        editor.status_message(),
        &b"WARNING!!! File has unsaved changes. Press Ctrl-Q 1 more time to quit.".to_vec()
    );
    assert_eq!(editor.quit_times(), 1);

    assert!(is_quit(&editor.process_keypress(CTRL_Q, 30)));
    assert_eq!(
        editor.status_message(),
        &b"WARNING!!! File has unsaved changes. Press Ctrl-Q 1 more time to quit.".to_vec()
    );
}

#[test]
fn any_other_key_sets_the_quit_count_back() {
    let mut editor = Editor::new(80, 24);
    editor.start(0);
    typed(&mut editor, b"x");
    editor.process_keypress(CTRL_Q, 0);
    editor.process_keypress(CTRL_Q, 0);
    assert_eq!(editor.quit_times(), 1);
    editor.process_keypress(CTRL_L, 0);
    assert_eq!(editor.quit_times(), 3);
    assert!(is_draw(&editor.process_keypress(CTRL_Q, 0)));
    assert!(is_draw(&editor.process_keypress(CTRL_Q, 0)));
    editor.process_keypress(Key::Special(EscapeSeq::LeftArrow), 0);
    assert_eq!(editor.quit_times(), 3);
    assert!(is_draw(&editor.process_keypress(CTRL_Q, 0)));
    assert!(is_draw(&editor.process_keypress(CTRL_Q, 0)));
    assert!(is_quit(&editor.process_keypress(CTRL_Q, 0)));
}

#[test]
fn keys_edit_the_document() {
    let mut editor = Editor::new(80, 24);
    editor.start(0);
    typed(&mut editor, b"ab");
    editor.process_keypress(Key::Char(ENTER), 0);
    typed(&mut editor, b"cd\te");
    assert_eq!(lines(&editor), vec![b"ab".to_vec(), b"cd\te".to_vec()]);
    editor.process_keypress(Key::Char(BACKSPACE), 0);
    editor.process_keypress(CTRL_H, 0);
    assert_eq!(lines(&editor), vec![b"ab".to_vec(), b"cd".to_vec()]);
    editor.process_keypress(Key::Special(EscapeSeq::Home), 0);
    editor.process_keypress(Key::Special(EscapeSeq::Delete), 0);
    assert_eq!(lines(&editor), vec![b"ab".to_vec(), b"d".to_vec()]);
    editor.process_keypress(Key::Special(EscapeSeq::UpArrow), 0);
    editor.process_keypress(Key::Special(EscapeSeq::End), 0);
    assert_eq!((editor.cx(), editor.cy()), (1, 0));
    editor.process_keypress(Key::Special(EscapeSeq::PageDown), 0);
    assert_eq!((editor.cx(), editor.cy()), (0, 2));
    editor.process_keypress(Key::Special(EscapeSeq::PageUp), 0);
    assert_eq!((editor.cx(), editor.cy()), (0, 0));
    editor.process_keypress(ESC, 0);
    editor.process_keypress(CTRL_L, 0);
    assert_eq!(lines(&editor), vec![b"ab".to_vec(), b"d".to_vec()]);
    assert_eq!((editor.cx(), editor.cy()), (0, 0));
}

#[test]
fn control_characters_are_typed_as_they_are() {
    let mut editor = Editor::new(80, 24);
    editor.start(0);
    typed(&mut editor, &[1, 0, 200]);
    assert_eq!(lines(&editor), vec![vec![1, 0, 200]]);
}

#[test]
fn save_of_a_named_document_hands_out_its_content() {
    let mut editor = Editor::new(80, 24);
    editor.open(b"dir/f.txt".to_vec(), b"abc\n\nxyz\n");
    editor.start(0);
    typed(&mut editor, b"!");
    match editor.process_keypress(CTRL_S, 5) {
        Action::Write(path, content) => {
            assert_eq!(path, b"dir/f.txt".to_vec());
            assert_eq!(content, b"!abc\n\nxyz".to_vec());
        }
        _ => panic!("expected a write"),
    }
    assert_eq!(editor.mode(), Mode::Write);
    assert!(editor.dirty());
    assert!(is_draw(&editor.written(Ok(9), 6)));
    assert_eq!(editor.mode(), Mode::Edit);
    assert!(!editor.dirty());
    assert_eq!(editor.status_message(), &b"9 bytes written to disk".to_vec());
}

#[test]
fn save_that_fails_reports_the_reason_and_stays_dirty() {
    let mut editor = Editor::new(80, 24);
    editor.open(b"f".to_vec(), b"abc");
    editor.start(0);
    typed(&mut editor, b"!");
    editor.process_keypress(CTRL_S, 5);
    assert!(is_draw(&editor.written(Err(b"permission denied".to_vec()), 6)));
    assert_eq!(
        editor.status_message(),
        &b"Can't save! IO error: permission denied".to_vec()
    );
    assert!(editor.dirty());
    assert_eq!(editor.mode(), Mode::Edit);
    assert_eq!(editor.filename(), Some(&b"f".to_vec()));
}

#[test]
fn save_of_an_empty_document_reports_nothing_written() {
    let mut editor = Editor::new(80, 24);
    editor.open(b"f".to_vec(), b"a");
    editor.start(0);
    editor.process_keypress(Key::Special(EscapeSeq::Delete), 0);
    assert!(editor.dirty());
    match editor.process_keypress(CTRL_S, 0) {
        Action::Write(_, content) => assert_eq!(content, Vec::<u8>::new()),
        _ => panic!("expected a write"),
    }
    editor.written(Ok(0), 0);
    assert_eq!(editor.status_message(), &b"Save aborted".to_vec());
    assert!(!editor.dirty());
}

#[test]
fn save_without_a_name_prompts_for_one() {
    let mut editor = Editor::new(80, 24);
    editor.start(0);
    typed(&mut editor, b"hi");
    assert!(is_draw(&editor.process_keypress(CTRL_S, 1)));
    assert_eq!(editor.mode(), Mode::Prompt);
    assert_eq!(
        editor.status_message(),
        &b"Enter a filename (ESC to cancel): ".to_vec()
    );
    typed(&mut editor, b"a.tx");
    editor.process_keypress(Key::Special(EscapeSeq::UpArrow), 2);
    editor.process_keypress(CTRL_Q, 2);
    editor.process_keypress(Key::Char(b'x'), 2);
    editor.process_keypress(Key::Char(BACKSPACE), 2);
    editor.process_keypress(Key::Char(b't'), 3);
    assert_eq!(editor.path(), &b"a.txt".to_vec());
    assert_eq!(
        editor.status_message(),
        &b"Enter a filename (ESC to cancel): a.txt".to_vec()
    );
    assert_eq!(lines(&editor), vec![b"hi".to_vec()]);
    match editor.process_keypress(Key::Char(ENTER), 4) {
        Action::Probe(path) => assert_eq!(path, b"a.txt".to_vec()),
        _ => panic!("expected a probe"),
    }
    assert_eq!(editor.mode(), Mode::Probe);
    match editor.probed(false, 5) {
        Action::Write(path, content) => {
            assert_eq!(path, b"a.txt".to_vec());
            assert_eq!(content, b"hi".to_vec());
        }
        _ => panic!("expected a write"),
    }
    assert_eq!(editor.filename(), Some(&b"a.txt".to_vec()));
    assert_eq!(editor.mode(), Mode::Write);
    assert!(is_draw(&editor.written(Ok(2), 6)));
    assert_eq!(editor.status_message(), &b"2 bytes written to disk".to_vec());
    assert!(!editor.dirty());
    assert_eq!(editor.mode(), Mode::Edit);
}

#[test]
fn prompt_ignores_enter_on_an_empty_name() {
    let mut editor = Editor::new(80, 24);
    editor.start(0);
    editor.process_keypress(CTRL_S, 1);
    assert!(is_draw(&editor.process_keypress(Key::Char(ENTER), 2)));
    assert!(is_draw(&editor.process_keypress(Key::Char(BACKSPACE), 2)));
    assert_eq!(editor.mode(), Mode::Prompt);
    assert_eq!(editor.path(), &Vec::<u8>::new());
}

#[test]
fn prompt_keeps_control_characters_out_of_the_name() {
    let mut editor = Editor::new(80, 24);
    editor.start(0);
    editor.process_keypress(CTRL_S, 1);
    for c in [0u8, 8, 9, 13, 31, 127, 128, 159] {
        editor.process_keypress(Key::Char(c), 2);
    }
    assert_eq!(editor.path(), &Vec::<u8>::new());
    for c in [32u8, 126, 160, 255] {
        editor.process_keypress(Key::Char(c), 2);
    }
    assert_eq!(editor.path(), &vec![32u8, 126, 160, 255]);
}

#[test]
fn escape_in_the_prompt_gives_the_save_up() {
    let mut editor = Editor::new(80, 24);
    editor.start(0);
    typed(&mut editor, b"hi");
    editor.process_keypress(CTRL_S, 1);
    typed(&mut editor, b"name");
    assert!(is_draw(&editor.process_keypress(ESC, 2)));
    assert_eq!(editor.mode(), Mode::Edit);
    assert_eq!(editor.status_message(), &b"Save aborted".to_vec());
    assert_eq!(editor.filename(), None);
    assert!(editor.dirty());
    assert_eq!(lines(&editor), vec![b"hi".to_vec()]);
    editor.process_keypress(CTRL_S, 3);
    assert_eq!(editor.path(), &Vec::<u8>::new());
}

#[test]
fn existing_file_is_overwritten_only_after_confirmation() {
    let mut editor = Editor::new(80, 24);
    editor.start(0);
    typed(&mut editor, b"hi");
    editor.process_keypress(CTRL_S, 1);
    typed(&mut editor, b"old");
    editor.process_keypress(Key::Char(ENTER), 2);
    assert!(is_draw(&editor.probed(true, 3)));
    assert_eq!(editor.mode(), Mode::Confirm);
    assert_eq!(
        editor.status_message(),
        &b"WARNING!!! Filename exists and will be overwritten. Press ! to OVERWRITE; any key to cancel"
            .to_vec()
    );
    assert_eq!(editor.filename(), None);
    match editor.process_keypress(Key::Char(b'!'), 4) {
        Action::Write(path, content) => {
            assert_eq!(path, b"old".to_vec());
            assert_eq!(content, b"hi".to_vec());
        }
        _ => panic!("expected a write"),
    }
    assert_eq!(editor.filename(), Some(&b"old".to_vec()));
}

#[test]
fn cancelled_confirmation_gives_the_save_up() {
    let mut editor = Editor::new(80, 24);
    editor.start(0);
    typed(&mut editor, b"hi");
    editor.process_keypress(CTRL_S, 1);
    typed(&mut editor, b"old");
    editor.process_keypress(Key::Char(ENTER), 2);
    editor.probed(true, 3);
    assert!(is_draw(&editor.process_keypress(Key::Char(b'n'), 4)));
    assert_eq!(editor.mode(), Mode::Edit);
    assert_eq!(editor.status_message(), &b"Save aborted".to_vec());
    assert_eq!(editor.filename(), None);
    assert!(editor.dirty());
    assert_eq!(lines(&editor), vec![b"hi".to_vec()]);
}

#[test]
fn answers_nobody_asked_for_change_nothing() {
    let mut editor = Editor::new(80, 24);
    editor.open(b"f".to_vec(), b"abc");
    editor.start(0);
    typed(&mut editor, b"x");
    assert!(is_draw(&editor.probed(true, 1)));
    assert!(is_draw(&editor.probed(false, 1)));
    assert!(is_draw(&editor.written(Ok(5), 1)));
    assert!(is_draw(&editor.written(Err(b"no".to_vec()), 1)));
    assert_eq!(editor.mode(), Mode::Edit);
    assert!(editor.dirty());
    assert_eq!(
        editor.status_message(),
        &b"HELP: Ctrl-S to save | Ctrl-Q to quit".to_vec()
    );
    assert_eq!(lines(&editor), vec![b"xabc".to_vec()]);
}

#[test]
fn keys_wait_while_a_file_is_written() {
    let mut editor = Editor::new(80, 24);
    editor.open(b"f".to_vec(), b"abc");
    editor.start(0);
    editor.process_keypress(CTRL_S, 1);
    assert_eq!(editor.mode(), Mode::Write);
    assert!(is_draw(&editor.process_keypress(Key::Char(b'x'), 2)));
    assert!(is_draw(&editor.process_keypress(CTRL_Q, 2)));
    assert_eq!(editor.mode(), Mode::Write);
    assert_eq!(lines(&editor), vec![b"abc".to_vec()]);
}
