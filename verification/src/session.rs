//! The session: what each event makes of the editor's state, and what the
//! editor asks its caller to do next. The caller reads keys, writes frames
//! and touches files; the editor decides.

use vstd::prelude::*;
use vstd::string::StringSliceAdditionalSpecFns;
use crate::command::decimal;
use crate::keys::{EscapeSeq, Key, BACKSPACE, ENTER};
use crate::state::{
    lemma_edits_keep_valid, lemma_jumps_keep_valid, lemma_move_keeps_valid,
    same_but_document, scroll_brings_cursor_into_view, Mode, State, QUIT_TIMES,
};
use crate::text::{ends_with_cr, join_lines, load_save_load, split_lines};

verus! {

/// The status message of a fresh session.
pub const HELP: &'static str = "HELP: Ctrl-S to save | Ctrl-Q to quit";

/// The start of the warning that the quit key gives on unsaved changes.
pub const QUIT_WARNING: &'static str = "WARNING!!! File has unsaved changes. Press Ctrl-Q ";

/// What follows the count in the warning when one press is left.
pub const QUIT_WARNING_ONCE: &'static str = " more time to quit.";

/// What follows the count in the warning when more presses are left.
pub const QUIT_WARNING_MORE: &'static str = " more times to quit.";

/// What follows the number of bytes after the document was written.
pub const BYTES_WRITTEN: &'static str = " bytes written to disk";

/// The status message after a save that wrote nothing.
pub const SAVE_ABORTED: &'static str = "Save aborted";

/// What stands before the reason when the document could not be written.
pub const SAVE_FAILED: &'static str = "Can't save! IO error: ";

/// The prompt for the name of the file to save to.
pub const FILENAME_PROMPT: &'static str = "Enter a filename (ESC to cancel): ";

/// The question whether an existing file is to be overwritten.
pub const OVERWRITE_WARNING: &'static str =
    "WARNING!!! Filename exists and will be overwritten. Press ! to OVERWRITE; any key to cancel";

/// The key that confirms overwriting an existing file.
pub const OVERWRITE: u8 = 33;

/// What the editor asks its caller to do next.
pub enum Action {
    /// Write this frame to the terminal, then hand in the next key.
    Draw(Vec<u8>),
    /// End the session.
    Quit,
    /// Find out whether a file of this name exists, then hand in the answer.
    Probe(Vec<u8>),
    /// Create the file of this name with this content, then hand in how
    /// that went.
    Write(Vec<u8>, Vec<u8>),
}

/// An action with its bytes as sequences.
pub enum ActionView {
    Draw(Seq<u8>),
    Quit,
    Probe(Seq<u8>),
    Write(Seq<u8>, Seq<u8>),
}

impl View for Action {
    type V = ActionView;

    open spec fn view(&self) -> ActionView {
        match self {
            Action::Draw(frame) => ActionView::Draw(frame@),
            Action::Quit => ActionView::Quit,
            Action::Probe(path) => ActionView::Probe(path@),
            Action::Write(path, content) => ActionView::Write(path@, content@),
        }
    }
}

/// The key that the control key makes of the character `c`.
pub open spec fn ctrl(c: char) -> Key {
    Key::Char(c as u8).masked()
}

/// Whether `c` is a control character: below the space, or from the delete
/// character up to 159.
pub open spec fn is_control(c: u8) -> bool {
    c < 32 || 127 <= c < 160
}

/// The warning that `left` more presses of the quit key are needed.
pub open spec fn quit_warning(left: int) -> Seq<u8> {
    QUIT_WARNING.spec_bytes() + decimal(left as nat) + if left == 1 {
        QUIT_WARNING_ONCE.spec_bytes()
    } else {
        QUIT_WARNING_MORE.spec_bytes()
    }
}

/// The status message after `written` bytes were written.
pub open spec fn written_message(written: nat) -> Seq<u8> {
    if written > 0 {
        decimal(written) + BYTES_WRITTEN.spec_bytes()
    } else {
        SAVE_ABORTED.spec_bytes()
    }
}

impl State {
    /// The window pulled over the cursor, and the frame of the state that
    /// results, to be drawn.
    pub open spec fn refresh(self, now: int) -> (State, ActionView) {
        let s = self.scroll();
        (s, ActionView::Draw(s.frame(now)))
    }

    /// The first step of a session: the help message is set and the first
    /// frame drawn.
    pub open spec fn start(self, now: int) -> (State, ActionView) {
        State { quit_times: QUIT_TIMES as int, mode: Mode::Edit, ..self }.set_status_message(
            HELP.spec_bytes(),
            now,
        ).refresh(now)
    }

    /// What a key other than the quit key and the save key does to the
    /// document and the cursor while editing.
    pub open spec fn apply_key(self, key: Key) -> State {
        match key {
            Key::Char(c) => if key == ctrl('l') {
                self
            } else if c == BACKSPACE || key == ctrl('h') {
                self.backspace_char()
            } else if c == ENTER {
                self.insert_newline()
            } else {
                self.insert_char(c)
            },
            Key::Special(EscapeSeq::Home) => self.home(),
            Key::Special(EscapeSeq::End) => self.end(),
            Key::Special(EscapeSeq::PageUp) => self.page_up(),
            Key::Special(EscapeSeq::PageDown) => self.page_down(),
            Key::Special(EscapeSeq::Delete) => self.delete_char(),
            Key::Special(EscapeSeq::Escape) => self,
            Key::Special(_) => self.move_cursor(key),
        }
    }

    /// The prompt for a file name shown with what was typed so far.
    pub open spec fn prompting(self, now: int) -> (State, ActionView) {
        self.set_status_message(FILENAME_PROMPT.spec_bytes() + self.path, now).refresh(now)
    }

    /// The typed name made the document's file name, and the document handed
    /// out to be written there.
    pub open spec fn accept_path(self) -> (State, ActionView) {
        (
            State { filename: Some(self.path), path: Seq::empty(), mode: Mode::Write, ..self },
            ActionView::Write(self.path, join_lines(self.lines)),
        )
    }

    /// The save given up: back to editing, with nothing written and the
    /// document as dirty as it was.
    pub open spec fn abort_save(self, now: int) -> (State, ActionView) {
        State {
            path: Seq::empty(),
            mode: Mode::Edit,
            quit_times: QUIT_TIMES as int,
            ..self
        }.set_status_message(SAVE_ABORTED.spec_bytes(), now).refresh(now)
    }

    /// The save key: a document with a file name is handed out to be
    /// written; one without asks for a name first.
    pub open spec fn save(self, now: int) -> (State, ActionView) {
        match self.filename {
            Some(name) => (
                State { mode: Mode::Write, ..self },
                ActionView::Write(name, join_lines(self.lines)),
            ),
            None => State { path: Seq::empty(), mode: Mode::Prompt, ..self }.prompting(now),
        }
    }

    /// A key while editing. The quit key leaves at once if nothing is
    /// unsaved or if this is the last of the presses asked for; else it
    /// counts down and warns. Every other key sets the count back.
    pub open spec fn edit_key(self, key: Key, now: int) -> (State, ActionView) {
        if key == ctrl('q') {
            if self.dirty && self.quit_times > 1 {
                State { quit_times: self.quit_times - 1, ..self }.set_status_message(
                    quit_warning(self.quit_times - 1),
                    now,
                ).refresh(now)
            } else {
                (self, ActionView::Quit)
            }
        } else if key == ctrl('s') {
            State { quit_times: QUIT_TIMES as int, ..self }.save(now)
        } else {
            State { quit_times: QUIT_TIMES as int, ..self.apply_key(key) }.refresh(now)
        }
    }

    /// A key while a file name is typed. Backspace takes the last character
    /// back, enter ends a name that is not empty, escape gives the save up,
    /// and a character that is no control character joins the name.
    pub open spec fn prompt_key(self, key: Key, now: int) -> (State, ActionView) {
        match key {
            Key::Char(c) => if c == BACKSPACE {
                State {
                    path: if self.path.len() > 0 {
                        self.path.drop_last()
                    } else {
                        self.path
                    },
                    ..self
                }.prompting(now)
            } else if c == ENTER && self.path.len() > 0 {
                (State { mode: Mode::Probe, ..self }, ActionView::Probe(self.path))
            } else if !is_control(c) {
                State { path: self.path.push(c), ..self }.prompting(now)
            } else {
                self.prompting(now)
            },
            Key::Special(EscapeSeq::Escape) => self.abort_save(now),
            Key::Special(_) => self.prompting(now),
        }
    }

    /// A key after the question whether to overwrite: the confirming key
    /// goes on with the save, every other key gives it up.
    pub open spec fn confirm_key(self, key: Key, now: int) -> (State, ActionView) {
        if key == Key::Char(OVERWRITE) {
            self.accept_path()
        } else {
            self.abort_save(now)
        }
    }

    /// A key, in whatever mode the session is. While an answer about a file
    /// is awaited a key changes nothing.
    pub open spec fn process_keypress(self, key: Key, now: int) -> (State, ActionView) {
        match self.mode {
            Mode::Edit => self.edit_key(key, now),
            Mode::Prompt => self.prompt_key(key, now),
            Mode::Confirm => self.confirm_key(key, now),
            _ => self.refresh(now),
        }
    }

    /// The answer to whether a file of the typed name exists: if it does,
    /// the user is asked whether to overwrite it; if not, the save goes on.
    /// An answer nobody asked for changes nothing.
    pub open spec fn probed(self, exists: bool, now: int) -> (State, ActionView) {
        if self.mode != Mode::Probe {
            self.refresh(now)
        } else if exists {
            State { mode: Mode::Confirm, ..self }.set_status_message(
                OVERWRITE_WARNING.spec_bytes(),
                now,
            ).refresh(now)
        } else {
            self.accept_path()
        }
    }

    /// The outcome of writing the document: on success it is no longer
    /// dirty and the number of bytes is reported, on failure the reason is.
    /// An outcome nobody asked for changes nothing.
    pub open spec fn written(self, outcome: Result<usize, Seq<u8>>, now: int) -> (
        State,
        ActionView,
    ) {
        if self.mode != Mode::Write {
            self.refresh(now)
        } else {
            let s = State { mode: Mode::Edit, quit_times: QUIT_TIMES as int, ..self };
            match outcome {
                Ok(written) => State { dirty: false, ..s }.set_status_message(
                    written_message(written as nat),
                    now,
                ).refresh(now),
                Err(reason) => s.set_status_message(SAVE_FAILED.spec_bytes() + reason, now).refresh(
                    now,
                ),
            }
        }
    }
}

/// A key that edits or moves takes a valid state to a valid one and touches
/// nothing but the document and the cursor; one that changes the lines
/// leaves the document dirty.
pub proof fn lemma_apply_key_keeps_valid(s: State, key: Key)
    requires
        s.valid(),
    ensures
        s.apply_key(key).valid(),
        same_but_document(s.apply_key(key), s),
        s.apply_key(key).lines != s.lines ==> s.apply_key(key).dirty,
{
    match key {
        Key::Char(c) => {
            lemma_edits_keep_valid(s, c);
        },
        Key::Special(EscapeSeq::Delete) => {
            lemma_edits_keep_valid(s, 0);
        },
        Key::Special(EscapeSeq::Escape) => {},
        Key::Special(EscapeSeq::Home)
        | Key::Special(EscapeSeq::End)
        | Key::Special(EscapeSeq::PageUp)
        | Key::Special(EscapeSeq::PageDown) => {
            lemma_jumps_keep_valid(s);
        },
        Key::Special(_) => {
            lemma_move_keeps_valid(s, key);
        },
    }
}

/// Refreshing a valid state gives a valid state with the cursor inside the
/// window, and asks for a frame to be drawn.
pub proof fn lemma_refresh_keeps_valid(s: State, now: int)
    requires
        s.valid(),
    ensures
        s.refresh(now).0.valid(),
        s.refresh(now).0.in_view(),
        s.refresh(now).1 is Draw,
{
    scroll_brings_cursor_into_view(s);
}

/// A key takes a valid state to a valid state; and when a frame is to be
/// drawn, the cursor is inside the window of the state that the frame shows.
pub proof fn keys_keep_state_valid(s: State, key: Key, now: int)
    requires
        s.valid(),
        0 <= now,
    ensures
        s.process_keypress(key, now).0.valid(),
        s.process_keypress(key, now).1 is Draw ==> s.process_keypress(key, now).0.in_view(),
{
    match s.mode {
        Mode::Edit => {
            if key == ctrl('q') {
                if s.dirty && s.quit_times > 1 {
                    lemma_refresh_keeps_valid(
                        State { quit_times: s.quit_times - 1, ..s }.set_status_message(
                            quit_warning(s.quit_times - 1),
                            now,
                        ),
                        now,
                    );
                }
            } else if key == ctrl('s') {
                let t = State { quit_times: QUIT_TIMES as int, ..s };
                if t.filename is None {
                    let u = State { path: Seq::empty(), mode: Mode::Prompt, ..t };
                    lemma_refresh_keeps_valid(
                        u.set_status_message(FILENAME_PROMPT.spec_bytes() + u.path, now),
                        now,
                    );
                }
            } else {
                lemma_apply_key_keeps_valid(s, key);
                lemma_refresh_keeps_valid(
                    State { quit_times: QUIT_TIMES as int, ..s.apply_key(key) },
                    now,
                );
            }
        },
        Mode::Prompt => {
            lemma_prompt_key_keeps_valid(s, key, now);
        },
        Mode::Confirm => {
            if key != Key::Char(OVERWRITE) {
                lemma_abort_keeps_valid(s, now);
            }
        },
        _ => {
            lemma_refresh_keeps_valid(s, now);
        },
    }
}

/// Giving a save up takes a valid state to a valid one with the cursor
/// inside the window, and leaves the document, its name and its dirty flag
/// as they were.
pub proof fn lemma_abort_keeps_valid(s: State, now: int)
    requires
        s.valid(),
        0 <= now,
    ensures
        s.abort_save(now).0.valid(),
        s.abort_save(now).0.in_view(),
        s.abort_save(now).0.lines == s.lines,
        s.abort_save(now).0.filename == s.filename,
        s.abort_save(now).0.dirty == s.dirty,
        s.abort_save(now).0.cx == s.cx && s.abort_save(now).0.cy == s.cy,
{
    lemma_refresh_keeps_valid(
        State {
            path: Seq::empty(),
            mode: Mode::Edit,
            quit_times: QUIT_TIMES as int,
            ..s
        }.set_status_message(SAVE_ABORTED.spec_bytes(), now),
        now,
    );
}

/// A key in the prompt takes a valid state to a valid one and leaves the
/// document as it was.
pub proof fn lemma_prompt_key_keeps_valid(s: State, key: Key, now: int)
    requires
        s.valid(),
        0 <= now,
    ensures
        s.prompt_key(key, now).0.valid(),
        s.prompt_key(key, now).1 is Draw ==> s.prompt_key(key, now).0.in_view(),
        s.prompt_key(key, now).0.lines == s.lines,
        s.prompt_key(key, now).0.dirty == s.dirty,
{
    lemma_abort_keeps_valid(s, now);
    let popped = State {
        path: if s.path.len() > 0 {
            s.path.drop_last()
        } else {
            s.path
        },
        ..s
    };
    lemma_refresh_keeps_valid(
        popped.set_status_message(FILENAME_PROMPT.spec_bytes() + popped.path, now),
        now,
    );
    lemma_refresh_keeps_valid(
        s.set_status_message(FILENAME_PROMPT.spec_bytes() + s.path, now),
        now,
    );
    match key {
        Key::Char(c) => {
            let pushed = State { path: s.path.push(c), ..s };
            lemma_refresh_keeps_valid(
                pushed.set_status_message(FILENAME_PROMPT.spec_bytes() + pushed.path, now),
                now,
            );
        },
        _ => {},
    }
}

/// The first step of a session and the answers about files take a valid
/// state to a valid state; and when a frame is to be drawn, the cursor is
/// inside the window of the state that the frame shows.
pub proof fn answers_keep_state_valid(
    s: State,
    exists: bool,
    outcome: Result<usize, Seq<u8>>,
    now: int,
)
    requires
        s.valid(),
        0 <= now,
    ensures
        s.start(now).0.valid() && s.start(now).0.in_view(),
        s.probed(exists, now).0.valid(),
        s.probed(exists, now).1 is Draw ==> s.probed(exists, now).0.in_view(),
        s.written(outcome, now).0.valid() && s.written(outcome, now).0.in_view(),
{
    lemma_refresh_keeps_valid(s, now);
    lemma_refresh_keeps_valid(
        State { quit_times: QUIT_TIMES as int, mode: Mode::Edit, ..s }.set_status_message(
            HELP.spec_bytes(),
            now,
        ),
        now,
    );
    lemma_refresh_keeps_valid(
        State { mode: Mode::Confirm, ..s }.set_status_message(OVERWRITE_WARNING.spec_bytes(), now),
        now,
    );
    let t = State { mode: Mode::Edit, quit_times: QUIT_TIMES as int, ..s };
    match outcome {
        Ok(written) => {
            lemma_refresh_keeps_valid(
                State { dirty: false, ..t }.set_status_message(
                    written_message(written as nat),
                    now,
                ),
                now,
            );
        },
        Err(reason) => {
            lemma_refresh_keeps_valid(
                t.set_status_message(SAVE_FAILED.spec_bytes() + reason, now),
                now,
            );
        },
    }
}

/// A file that was loaded and is saved again is written under its own name
/// as its lines joined by newlines, and loading what was written gives the
/// lines of the first load. This holds of every file whose last line is not
/// empty and in which no line but the last ends with a carriage return.
pub proof fn saved_file_loads_the_same_lines(s: State, name: Seq<u8>, file: Seq<u8>, now: int)
    requires
        split_lines(file).len() > 0 ==> split_lines(file).last().len() > 0,
        forall|i: int|
            0 <= i < split_lines(file).len() - 1 ==> !ends_with_cr(#[trigger] split_lines(file)[i]),
    ensures
        s.open(name, file).save(now).1 == ActionView::Write(
            name,
            join_lines(s.open(name, file).lines),
        ),
        s.open(name, join_lines(s.open(name, file).lines)).lines == s.open(name, file).lines,
{
    load_save_load(file);
}

} // verus!
