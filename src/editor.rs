use vstd::prelude::*;

use crate::text::{
    cur_line, joined, lines_of, spec_apply, wf_state, Cursor, EditOp, TextModel, TextState,
};
use crate::viewport::{
    is_active, spec_cancel, spec_commit, spec_enter_save_mode, spec_entry_backspace,
    spec_entry_end, spec_entry_insert, spec_entry_left, spec_entry_right, spec_entry_start,
    spec_recompute_scroll, status_of, wf_view, SaveState, ViewState, ViewportController,
};

verus! {

/// A key, as far as the editor tells keys apart.
#[derive(Clone, Copy, Debug, PartialEq, Eq, Structural)]
pub enum KeyCode {
    Char(char),
    Enter,
    Backspace,
    Up,
    Down,
    Left,
    Right,
    Esc,
    Other,
}

/// A key press, with whether the Ctrl modifier was held.
#[derive(Clone, Copy, Debug, PartialEq, Eq, Structural)]
pub struct KeyPress {
    pub code: KeyCode,
    pub ctrl: bool,
}

/// What the host loop does after a key: go on, stop, or write `text` to
/// `filename` and stop.
#[derive(Debug)]
pub enum Action {
    Continue,
    Quit,
    Save { filename: Vec<char>, text: Vec<char> },
}

/// The mathematical picture of an action.
pub enum Outcome {
    Continue,
    Quit,
    Save { filename: Seq<char>, text: Seq<char> },
}

pub open spec fn outcome_of(a: Action) -> Outcome {
    match a {
        Action::Continue => Outcome::Continue,
        Action::Quit => Outcome::Quit,
        Action::Save { filename, text } => Outcome::Save { filename: filename@, text: text@ },
    }
}

/// Everything drawn in one frame.
pub struct Frame {
    /// The visible part of each line in the window, from the top.
    pub rows: Vec<Vec<char>>,
    /// The row of asterisks under the window.
    pub separator: Vec<char>,
    /// The bottom row.
    pub status: Vec<char>,
    /// Whether the bottom row is highlighted, which it is while saving.
    pub highlight: bool,
    pub cursor_x: usize,
    pub cursor_y: usize,
}

/// The mathematical picture of an editor.
pub struct EditorState {
    pub text: TextState,
    pub view: ViewState,
}

pub open spec fn cursor_of(t: TextState) -> Cursor {
    Cursor { row: t.row as usize, col: t.col as usize }
}

/// Rows of text shown for a terminal `height` rows high: all but the
/// separator and the status row.
pub open spec fn text_rows(height: int) -> int {
    height - 2
}

/// Columns of text shown for a terminal `width` columns wide.
pub open spec fn text_cols(width: int) -> int {
    width - 1
}

/// The step on the buffer that a key stands for outside save mode.
pub open spec fn normal_op(k: KeyPress) -> Option<EditOp> {
    match k.code {
        KeyCode::Char(c) => if k.ctrl {
            None
        } else {
            Some(EditOp::InsertChar(c))
        },
        KeyCode::Enter => Some(EditOp::InsertNewline),
        KeyCode::Backspace => Some(
            if k.ctrl {
                EditOp::DeleteLineContents
            } else {
                EditOp::DeleteCharBefore
            },
        ),
        KeyCode::Up => Some(
            if k.ctrl {
                EditOp::MoveToFirstLine
            } else {
                EditOp::MoveUp
            },
        ),
        KeyCode::Down => Some(
            if k.ctrl {
                EditOp::MoveToLastLine
            } else {
                EditOp::MoveDown
            },
        ),
        KeyCode::Left => Some(
            if k.ctrl {
                EditOp::MoveToLineStart
            } else {
                EditOp::MoveLeft
            },
        ),
        KeyCode::Right => Some(
            if k.ctrl {
                EditOp::MoveToLineEnd
            } else {
                EditOp::MoveRight
            },
        ),
        _ => None,
    }
}

pub open spec fn is_ctrl_char(k: KeyPress, c: char) -> bool {
    k.ctrl && k.code == KeyCode::Char(c)
}

/// A step is skipped only where a character would make a line longer than
/// memory can index.
pub open spec fn text_after(t: TextState, op: Option<EditOp>) -> TextState {
    match op {
        None => t,
        Some(o) => if o is InsertChar && cur_line(t).len() >= usize::MAX {
            t
        } else {
            spec_apply(t, o)
        },
    }
}

pub open spec fn entry_after(v: ViewState, k: KeyPress) -> ViewState {
    match k.code {
        KeyCode::Char(c) => if status_of(v).len() < usize::MAX {
            spec_entry_insert(v, c)
        } else {
            v
        },
        KeyCode::Backspace => spec_entry_backspace(v),
        KeyCode::Left => if k.ctrl {
            spec_entry_start(v)
        } else {
            spec_entry_left(v)
        },
        KeyCode::Right => if k.ctrl {
            spec_entry_end(v)
        } else {
            spec_entry_right(v)
        },
        _ => v,
    }
}

pub open spec fn saved_cursor_of(v: ViewState) -> Cursor {
    match v.mode {
        SaveState::Active { saved_cursor, .. } => saved_cursor,
        SaveState::Inactive => Cursor { row: 0, col: 0 },
    }
}

/// The editor after one key on a terminal `width` by `height`.
pub open spec fn spec_handle_key(e: EditorState, k: KeyPress, width: int, height: int) -> EditorState {
    let rows = text_rows(height);
    let cols = text_cols(width);
    if !is_active(e.view) {
        if is_ctrl_char(k, 'q') {
            e
        } else {
            let t = text_after(e.text, normal_op(k));
            let v = if is_ctrl_char(k, 's') {
                spec_enter_save_mode(e.view, cursor_of(e.text))
            } else {
                e.view
            };
            EditorState { text: t, view: spec_recompute_scroll(v, cursor_of(t), rows, cols) }
        }
    } else {
        match k.code {
            KeyCode::Enter => EditorState { text: e.text, view: spec_commit(e.view) },
            KeyCode::Esc => {
                let c = saved_cursor_of(e.view);
                let t = TextState { row: c.row as int, col: c.col as int, ..e.text };
                EditorState { text: t, view: spec_recompute_scroll(spec_cancel(e.view), c, rows, cols) }
            },
            _ => EditorState { text: e.text, view: entry_after(e.view, k) },
        }
    }
}

/// What the host does after that key.
pub open spec fn spec_outcome(e: EditorState, k: KeyPress) -> Outcome {
    if !is_active(e.view) {
        if is_ctrl_char(k, 'q') {
            Outcome::Quit
        } else {
            Outcome::Continue
        }
    } else if k.code == KeyCode::Enter {
        if status_of(e.view).len() == 0 {
            Outcome::Quit
        } else {
            Outcome::Save { filename: status_of(e.view), text: joined(e.text.lines) }
        }
    } else {
        Outcome::Continue
    }
}

/// The part of a line from column `sx` on; empty where the line is shorter.
pub open spec fn line_from(l: Seq<char>, sx: int) -> Seq<char> {
    if sx < l.len() {
        l.skip(sx)
    } else {
        Seq::empty()
    }
}

/// How many lines a window of `n` rows starting at line `sy` shows.
pub open spec fn shown_count(len: int, sy: int, n: int) -> int {
    if sy >= len {
        0
    } else if len - sy < n {
        len - sy
    } else {
        n
    }
}

/// The visible parts of the lines in a window of `n` rows at `(sx, sy)`.
pub open spec fn window(lines: Seq<Seq<char>>, sx: int, sy: int, n: int) -> Seq<Seq<char>> {
    Seq::new(
        shown_count(lines.len() as int, sy, n) as nat,
        |r: int| line_from(lines[sy + r], sx),
    )
}

/// A text model and a viewport controller, driven by key presses.
pub struct Editor {
    text: TextModel,
    view: ViewportController,
}

impl View for Editor {
    type V = EditorState;

    closed spec fn view(&self) -> EditorState {
        EditorState { text: self.text@, view: self.view@ }
    }
}

pub open spec fn wf_editor(e: EditorState) -> bool {
    &&& wf_state(e.text)
    &&& wf_view(e.view)
    &&& is_active(e.view) ==> saved_cursor_of(e.view) == cursor_of(e.text)
}

impl Editor {
    pub open spec fn wf(&self) -> bool {
        wf_editor(self@)
    }

    /// One empty line and no filename.
    pub fn new() -> (r: Editor)
        ensures
            r.wf(),
            r@.text.lines == seq![Seq::<char>::empty()],
            r@.text.row == 0 && r@.text.col == 0,
            r@.view == (ViewState {
                scroll_x: 0,
                scroll_y: 0,
                filename: Seq::empty(),
                mode: SaveState::Inactive,
            }),
    {
        Editor { text: TextModel::new(), view: ViewportController::new(Vec::new()) }
    }

    /// An editor on the file `filename`, whose contents are `contents` where
    /// it could be read and `None` where not.
    pub fn open(filename: Vec<char>, contents: Option<Vec<char>>) -> (r: Editor)
        ensures
            r.wf(),
            r@.text.lines == match contents {
                Some(t) => lines_of(t@),
                None => seq![Seq::<char>::empty()],
            },
            r@.text.row == 0 && r@.text.col == 0,
            r@.view == (ViewState {
                scroll_x: 0,
                scroll_y: 0,
                filename: filename@,
                mode: SaveState::Inactive,
            }),
    {
        let text = match contents {
            Some(t) => TextModel::from_text(&t),
            None => TextModel::new(),
        };
        Editor { text, view: ViewportController::new(filename) }
    }

    pub fn text_model(&self) -> (r: &TextModel)
        ensures
            r@ == self@.text,
    {
        &self.text
    }

    pub fn viewport(&self) -> (r: &ViewportController)
        ensures
            r@ == self@.view,
    {
        &self.view
    }

    /// The buffer as the text that a save writes.
    pub fn text(&self) -> (r: Vec<char>)
        requires
            self.wf(),
        ensures
            r@ == joined(self@.text.lines),
    {
        self.text.text()
    }

    /// Scrolls so that the cursor is in view on a terminal `width` columns
    /// wide and `height` rows high, then gives what is to be drawn.
    pub fn frame(&mut self, width: u16, height: u16) -> (r: Frame)
        requires
            old(self).wf(),
            width >= 1,
            height >= 2,
        ensures
            final(self).wf(),
            final(self)@.text == old(self)@.text,
            final(self)@.view == spec_recompute_scroll(
                old(self)@.view,
                cursor_of(old(self)@.text),
                text_rows(height as int),
                text_cols(width as int),
            ),
            r.rows@.map_values(|l: Vec<char>| l@) == window(
                final(self)@.text.lines,
                final(self)@.view.scroll_x,
                final(self)@.view.scroll_y,
                text_rows(height as int),
            ),
            r.separator@ == Seq::new(width as nat, |i: int| '*'),
            r.status@ == status_of(final(self)@.view),
            r.highlight == is_active(final(self)@.view),
            !is_active(final(self)@.view) ==> r.cursor_x == final(self)@.text.col
                - final(self)@.view.scroll_x && r.cursor_y == final(self)@.text.row
                - final(self)@.view.scroll_y,
            is_active(final(self)@.view) ==> r.cursor_x == crate::viewport::entry_pos(
                final(self)@.view,
            ) && r.cursor_y == height - 1,
    {
        let visible = (height - 2) as usize;
        let cols = (width - 1) as usize;
        let cursor = self.text.cursor();
        self.view.recompute_scroll(cursor, visible, cols);
        let sx = self.view.scroll_x();
        let sy = self.view.scroll_y();
        let lines = self.text.lines();
        let n = lines.len();
        let ghost all = self@.text.lines;
        let ghost want = window(all, sx as int, sy as int, visible as int);
        let mut rows: Vec<Vec<char>> = Vec::new();
        let mut k: usize = 0;
        while k < visible && sy < n && k < n - sy
            invariant
                n == all.len(),
                all == crate::text::lines_view(lines@),
                want == window(all, sx as int, sy as int, visible as int),
                sy <= all.len() ==> k <= all.len() - sy,
                k <= visible,
                k <= shown_count(all.len() as int, sy as int, visible as int),
                rows@.map_values(|l: Vec<char>| l@) == want.take(k as int),
            decreases visible - k,
        {
            let part = tail_from(&lines[sy + k], sx);
            assert(k < shown_count(all.len() as int, sy as int, visible as int));
            assert(want.len() == shown_count(all.len() as int, sy as int, visible as int));
            assert(all[sy + k] == lines@[sy + k]@);
            assert(want[k as int] == part@);
            let ghost before = rows@.map_values(|l: Vec<char>| l@);
            rows.push(part);
            assert(rows@.map_values(|l: Vec<char>| l@) =~= before.push(part@));
            k = k + 1;
            assert(rows@.map_values(|l: Vec<char>| l@) =~= want.take(k as int));
        }
        assert(want.take(k as int) =~= want);
        let mut separator: Vec<char> = Vec::new();
        let mut j: usize = 0;
        while j < width as usize
            invariant
                j <= width,
                separator@ == Seq::new(j as nat, |i: int| '*'),
            decreases width - j,
        {
            separator.push('*');
            j = j + 1;
            assert(separator@ =~= Seq::new(j as nat, |i: int| '*'));
        }
        let mut status: Vec<char> = Vec::new();
        crate::text::push_all(&mut status, self.view.status_text());
        assert(status@ =~= status_of(self@.view));
        let (cursor_x, cursor_y) = self.view.screen_cursor(cursor, height as usize);
        Frame {
            rows,
            separator,
            status,
            highlight: self.view.is_active(),
            cursor_x,
            cursor_y,
        }
    }

    /// Handles one key on a terminal `width` columns wide and `height` rows high.
    pub fn handle_key(&mut self, key: KeyPress, width: u16, height: u16) -> (r: Action)
        requires
            old(self).wf(),
            width >= 1,
            height >= 2,
        ensures
            final(self).wf(),
            final(self)@ == spec_handle_key(old(self)@, key, width as int, height as int),
            outcome_of(r) == spec_outcome(old(self)@, key),
            is_active(old(self)@.view) ==> final(self)@.text.lines == old(self)@.text.lines,
            is_active(old(self)@.view) && key.code == KeyCode::Esc ==> cursor_of(final(self)@.text)
                == saved_cursor_of(old(self)@.view),
    {
        let rows = (height - 2) as usize;
        let cols = (width - 1) as usize;
        if !self.view.is_active() {
            if key.ctrl && key.code == KeyCode::Char('q') {
                return Action::Quit;
            }
            if key.ctrl && key.code == KeyCode::Char('s') {
                self.view.enter_save_mode(self.text.cursor());
            }
            let op = normal_op_exec(key);
            match op {
                None => {},
                Some(o) => {
                    let full = match o {
                        EditOp::InsertChar(_) => self.text.current_line_len() == usize::MAX,
                        _ => false,
                    };
                    if !full {
                        self.text.apply(o);
                    }
                },
            }
            self.view.recompute_scroll(self.text.cursor(), rows, cols);
            Action::Continue
        } else {
            match key.code {
                KeyCode::Enter => {
                    let committed = self.view.exit_save_mode_commit();
                    match committed {
                        Some(name) => {
                            if name.len() == 0 {
                                Action::Quit
                            } else {
                                Action::Save { filename: name, text: self.text.text() }
                            }
                        },
                        None => Action::Continue,
                    }
                },
                KeyCode::Esc => {
                    let saved = self.view.exit_save_mode_cancel();
                    match saved {
                        Some(c) => {
                            let here = self.text.cursor();
                            assert(c == here);
                            self.text.restore_cursor(c);
                            self.view.recompute_scroll(c, rows, cols);
                        },
                        None => {},
                    }
                    Action::Continue
                },
                KeyCode::Char(c) => {
                    if self.view.status_text().len() < usize::MAX {
                        self.view.entry_insert(c);
                    }
                    Action::Continue
                },
                KeyCode::Backspace => {
                    self.view.entry_backspace();
                    Action::Continue
                },
                KeyCode::Left => {
                    if key.ctrl {
                        self.view.entry_start();
                    } else {
                        self.view.entry_left();
                    }
                    Action::Continue
                },
                KeyCode::Right => {
                    if key.ctrl {
                        self.view.entry_end();
                    } else {
                        self.view.entry_right();
                    }
                    Action::Continue
                },
                _ => Action::Continue,
            }
        }
    }
}

/// While saving, no key changes the buffer; leaving by Escape puts the
/// cursor back exactly where it was saved, and leaving by Enter hands over
/// the buffer as it was.
pub proof fn lemma_save_mode_isolation(e: EditorState, k: KeyPress, width: int, height: int)
    requires
        wf_editor(e),
        is_active(e.view),
    ensures
        spec_handle_key(e, k, width, height).text.lines == e.text.lines,
        k.code == KeyCode::Esc ==> cursor_of(spec_handle_key(e, k, width, height).text)
            == saved_cursor_of(e.view) && !is_active(spec_handle_key(e, k, width, height).view),
        k.code == KeyCode::Enter ==> spec_handle_key(e, k, width, height).text == e.text
            && !is_active(spec_handle_key(e, k, width, height).view) && match spec_outcome(e, k) {
            Outcome::Save { text, .. } => text == joined(e.text.lines),
            _ => true,
        },
{
}

/// The part of `src` from column `start` on, empty where `src` is shorter.
fn tail_from(src: &Vec<char>, start: usize) -> (r: Vec<char>)
    ensures
        r@ == line_from(src@, start as int),
{
    let mut out: Vec<char> = Vec::new();
    if start < src.len() {
        let mut i: usize = start;
        while i < src.len()
            invariant
                start <= i <= src@.len(),
                out@ == src@.subrange(start as int, i as int),
            decreases src@.len() - i,
        {
            out.push(src[i]);
            i = i + 1;
            assert(out@ =~= src@.subrange(start as int, i as int));
        }
        assert(out@ =~= src@.skip(start as int));
    } else {
        assert(out@ =~= Seq::<char>::empty());
    }
    out
}

fn normal_op_exec(k: KeyPress) -> (r: Option<EditOp>)
    ensures
        r == normal_op(k),
{
    match k.code {
        KeyCode::Char(c) => if k.ctrl {
            None
        } else {
            Some(EditOp::InsertChar(c))
        },
        KeyCode::Enter => Some(EditOp::InsertNewline),
        KeyCode::Backspace => Some(
            if k.ctrl {
                EditOp::DeleteLineContents
            } else {
                EditOp::DeleteCharBefore
            },
        ),
        KeyCode::Up => Some(
            if k.ctrl {
                EditOp::MoveToFirstLine
            } else {
                EditOp::MoveUp
            },
        ),
        KeyCode::Down => Some(
            if k.ctrl {
                EditOp::MoveToLastLine
            } else {
                EditOp::MoveDown
            },
        ),
        KeyCode::Left => Some(
            if k.ctrl {
                EditOp::MoveToLineStart
            } else {
                EditOp::MoveLeft
            },
        ),
        KeyCode::Right => Some(
            if k.ctrl {
                EditOp::MoveToLineEnd
            } else {
                EditOp::MoveRight
            },
        ),
        _ => None,
    }
}

} // verus!
