use vstd::prelude::*;

use crate::text::{push_all, Cursor};

verus! {

/// Whether keyboard input goes to the buffer or to the filename entry.
pub enum SaveMode {
    Inactive,
    Active { saved_cursor: Cursor, filename: Vec<char>, filename_cursor: usize },
}

/// The mathematical picture of the save-mode sub-state.
pub enum SaveState {
    Inactive,
    Active { saved_cursor: Cursor, filename: Seq<char>, filename_cursor: int },
}

/// The mathematical picture of a viewport controller.
pub struct ViewState {
    pub scroll_x: int,
    pub scroll_y: int,
    pub filename: Seq<char>,
    pub mode: SaveState,
}

/// The scroll offset along one axis that keeps `pos` inside a window of
/// `size` cells, moving the offset as little as possible. A window of no
/// cells only keeps the offset from passing `pos`.
pub open spec fn follow(off: int, pos: int, size: int) -> int {
    if pos < off {
        pos
    } else if size > 0 && pos >= off + size {
        pos - size + 1
    } else {
        off
    }
}

/// After following, `pos` lies inside the window.
pub proof fn lemma_follow_shows(off: int, pos: int, size: int)
    requires
        0 <= off,
        0 <= pos,
        1 <= size,
    ensures
        0 <= follow(off, pos, size) <= pos < follow(off, pos, size) + size,
{
}

pub open spec fn wf_view(v: ViewState) -> bool {
    &&& v.scroll_x >= 0
    &&& v.scroll_y >= 0
    &&& match v.mode {
        SaveState::Inactive => true,
        SaveState::Active { filename, filename_cursor, .. } => 0 <= filename_cursor
            <= filename.len(),
    }
}

pub open spec fn is_active(v: ViewState) -> bool {
    v.mode is Active
}

/// What the bottom row shows: the entry while saving, the filename otherwise.
pub open spec fn status_of(v: ViewState) -> Seq<char> {
    match v.mode {
        SaveState::Inactive => v.filename,
        SaveState::Active { filename, .. } => filename,
    }
}

pub open spec fn spec_recompute_scroll(
    v: ViewState,
    cursor: Cursor,
    rows: int,
    cols: int,
) -> ViewState {
    ViewState {
        scroll_x: follow(v.scroll_x, cursor.col as int, cols),
        scroll_y: follow(v.scroll_y, cursor.row as int, rows),
        ..v
    }
}

pub open spec fn spec_enter_save_mode(v: ViewState, cursor: Cursor) -> ViewState {
    match v.mode {
        SaveState::Inactive => ViewState {
            mode: SaveState::Active {
                saved_cursor: cursor,
                filename: v.filename,
                filename_cursor: 0,
            },
            ..v
        },
        SaveState::Active { .. } => v,
    }
}

pub open spec fn spec_cancel(v: ViewState) -> ViewState {
    ViewState { mode: SaveState::Inactive, ..v }
}

pub open spec fn spec_commit(v: ViewState) -> ViewState {
    ViewState { mode: SaveState::Inactive, filename: status_of(v), ..v }
}

/// Replaces the entry and its cursor while saving; nothing otherwise.
pub open spec fn edit_entry(v: ViewState, name: Seq<char>, pos: int) -> ViewState {
    match v.mode {
        SaveState::Inactive => v,
        SaveState::Active { saved_cursor, .. } => ViewState {
            mode: SaveState::Active { saved_cursor, filename: name, filename_cursor: pos },
            ..v
        },
    }
}

pub open spec fn entry_pos(v: ViewState) -> int {
    match v.mode {
        SaveState::Inactive => 0,
        SaveState::Active { filename_cursor, .. } => filename_cursor,
    }
}

pub open spec fn spec_entry_insert(v: ViewState, c: char) -> ViewState {
    edit_entry(v, status_of(v).insert(entry_pos(v), c), entry_pos(v) + 1)
}

pub open spec fn spec_entry_backspace(v: ViewState) -> ViewState {
    if entry_pos(v) > 0 {
        edit_entry(v, status_of(v).remove(entry_pos(v) - 1), entry_pos(v) - 1)
    } else {
        v
    }
}

pub open spec fn spec_entry_left(v: ViewState) -> ViewState {
    if entry_pos(v) > 0 {
        edit_entry(v, status_of(v), entry_pos(v) - 1)
    } else {
        v
    }
}

pub open spec fn spec_entry_right(v: ViewState) -> ViewState {
    if entry_pos(v) < status_of(v).len() {
        edit_entry(v, status_of(v), entry_pos(v) + 1)
    } else {
        v
    }
}

pub open spec fn spec_entry_start(v: ViewState) -> ViewState {
    edit_entry(v, status_of(v), 0)
}

pub open spec fn spec_entry_end(v: ViewState) -> ViewState {
    edit_entry(v, status_of(v), status_of(v).len() as int)
}

/// Scroll offsets, the filename shown on the status row, and the save-mode sub-state.
pub struct ViewportController {
    scroll_x: usize,
    scroll_y: usize,
    filename: Vec<char>,
    mode: SaveMode,
}

impl View for ViewportController {
    type V = ViewState;

    closed spec fn view(&self) -> ViewState {
        ViewState {
            scroll_x: self.scroll_x as int,
            scroll_y: self.scroll_y as int,
            filename: self.filename@,
            mode: match self.mode {
                SaveMode::Inactive => SaveState::Inactive,
                SaveMode::Active { saved_cursor, filename, filename_cursor } => SaveState::Active {
                    saved_cursor,
                    filename: filename@,
                    filename_cursor: filename_cursor as int,
                },
            },
        }
    }
}

impl ViewportController {
    pub open spec fn wf(&self) -> bool {
        wf_view(self@)
    }

    /// No scroll, not saving, and `filename` on the status row.
    pub fn new(filename: Vec<char>) -> (r: ViewportController)
        ensures
            r.wf(),
            r@ == (ViewState {
                scroll_x: 0,
                scroll_y: 0,
                filename: filename@,
                mode: SaveState::Inactive,
            }),
    {
        ViewportController { scroll_x: 0, scroll_y: 0, filename, mode: SaveMode::Inactive }
    }

    pub fn scroll_x(&self) -> (r: usize)
        ensures
            r == self@.scroll_x,
    {
        self.scroll_x
    }

    pub fn scroll_y(&self) -> (r: usize)
        ensures
            r == self@.scroll_y,
    {
        self.scroll_y
    }

    pub fn is_active(&self) -> (r: bool)
        ensures
            r == is_active(self@),
    {
        match self.mode {
            SaveMode::Inactive => false,
            SaveMode::Active { .. } => true,
        }
    }

    /// The text of the status row.
    pub fn status_text(&self) -> (r: &Vec<char>)
        ensures
            r@ == status_of(self@),
    {
        match &self.mode {
            SaveMode::Inactive => &self.filename,
            SaveMode::Active { filename, .. } => filename,
        }
    }

    /// Moves each offset the least amount that brings the cursor into a
    /// window of `visible_rows` by `visible_cols` cells.
    pub fn recompute_scroll(&mut self, cursor: Cursor, visible_rows: usize, visible_cols: usize)
        requires
            old(self).wf(),
        ensures
            final(self).wf(),
            final(self)@ == spec_recompute_scroll(
                old(self)@,
                cursor,
                visible_rows as int,
                visible_cols as int,
            ),
            final(self)@.scroll_y <= cursor.row,
            final(self)@.scroll_x <= cursor.col,
            visible_rows >= 1 ==> cursor.row < final(self)@.scroll_y + visible_rows,
            visible_cols >= 1 ==> cursor.col < final(self)@.scroll_x + visible_cols,
    {
        self.scroll_y = follow_exec(self.scroll_y, cursor.row, visible_rows);
        self.scroll_x = follow_exec(self.scroll_x, cursor.col, visible_cols);
        proof {
            if visible_rows >= 1 {
                lemma_follow_shows(
                    old(self)@.scroll_y,
                    cursor.row as int,
                    visible_rows as int,
                );
            }
            if visible_cols >= 1 {
                lemma_follow_shows(
                    old(self)@.scroll_x,
                    cursor.col as int,
                    visible_cols as int,
                );
            }
        }
    }

    /// Starts filename entry from the current filename, remembering `cursor`;
    /// does nothing while already saving.
    pub fn enter_save_mode(&mut self, cursor: Cursor)
        requires
            old(self).wf(),
        ensures
            final(self).wf(),
            final(self)@ == spec_enter_save_mode(old(self)@, cursor),
    {
        if let SaveMode::Inactive = self.mode {
            let mut entry: Vec<char> = Vec::new();
            push_all(&mut entry, &self.filename);
            assert(entry@ =~= self.filename@);
            self.mode = SaveMode::Active { saved_cursor: cursor, filename: entry, filename_cursor: 0 };
        }
    }

    /// Leaves save mode, dropping the entry, and hands back the cursor that
    /// was saved on entry; `None` when not saving.
    pub fn exit_save_mode_cancel(&mut self) -> (r: Option<Cursor>)
        requires
            old(self).wf(),
        ensures
            final(self).wf(),
            match old(self)@.mode {
                SaveState::Inactive => r is None && final(self)@ == old(self)@,
                SaveState::Active { saved_cursor, .. } => r == Some(saved_cursor)
                    && final(self)@ == spec_cancel(old(self)@),
            },
    {
        let mut mode = SaveMode::Inactive;
        std::mem::swap(&mut mode, &mut self.mode);
        match mode {
            SaveMode::Inactive => None,
            SaveMode::Active { saved_cursor, .. } => Some(saved_cursor),
        }
    }

    /// Leaves save mode, keeping the entry as the filename, and hands it back;
    /// `None` when not saving.
    pub fn exit_save_mode_commit(&mut self) -> (r: Option<Vec<char>>)
        requires
            old(self).wf(),
        ensures
            final(self).wf(),
            is_active(old(self)@) ==> r is Some && r->0@ == status_of(old(self)@)
                && final(self)@ == spec_commit(old(self)@),
            !is_active(old(self)@) ==> r is None && final(self)@ == old(self)@,
    {
        let mut mode = SaveMode::Inactive;
        std::mem::swap(&mut mode, &mut self.mode);
        match mode {
            SaveMode::Inactive => None,
            SaveMode::Active { filename, .. } => {
                let mut name: Vec<char> = Vec::new();
                push_all(&mut name, &filename);
                self.filename = filename;
                assert(name@ =~= self.filename@);
                Some(name)
            },
        }
    }

    /// Puts `c` into the entry at its cursor while saving.
    pub fn entry_insert(&mut self, c: char)
        requires
            old(self).wf(),
            status_of(old(self)@).len() < usize::MAX,
        ensures
            final(self).wf(),
            final(self)@ == spec_entry_insert(old(self)@, c),
    {
        match &mut self.mode {
            SaveMode::Inactive => {},
            SaveMode::Active { filename, filename_cursor, .. } => {
                filename.insert(*filename_cursor, c);
                *filename_cursor = *filename_cursor + 1;
            },
        }
    }

    /// Removes the entry's character before its cursor while saving.
    pub fn entry_backspace(&mut self)
        requires
            old(self).wf(),
        ensures
            final(self).wf(),
            final(self)@ == spec_entry_backspace(old(self)@),
    {
        match &mut self.mode {
            SaveMode::Inactive => {},
            SaveMode::Active { filename, filename_cursor, .. } => {
                if *filename_cursor > 0 {
                    filename.remove(*filename_cursor - 1);
                    *filename_cursor = *filename_cursor - 1;
                }
            },
        }
    }

    pub fn entry_left(&mut self)
        requires
            old(self).wf(),
        ensures
            final(self).wf(),
            final(self)@ == spec_entry_left(old(self)@),
    {
        match &mut self.mode {
            SaveMode::Inactive => {},
            SaveMode::Active { filename_cursor, .. } => {
                if *filename_cursor > 0 {
                    *filename_cursor = *filename_cursor - 1;
                }
            },
        }
    }

    pub fn entry_right(&mut self)
        requires
            old(self).wf(),
        ensures
            final(self).wf(),
            final(self)@ == spec_entry_right(old(self)@),
    {
        match &mut self.mode {
            SaveMode::Inactive => {},
            SaveMode::Active { filename, filename_cursor, .. } => {
                if *filename_cursor < filename.len() {
                    *filename_cursor = *filename_cursor + 1;
                }
            },
        }
    }

    pub fn entry_start(&mut self)
        requires
            old(self).wf(),
        ensures
            final(self).wf(),
            final(self)@ == spec_entry_start(old(self)@),
    {
        match &mut self.mode {
            SaveMode::Inactive => {},
            SaveMode::Active { filename_cursor, .. } => {
                *filename_cursor = 0;
            },
        }
    }

    pub fn entry_end(&mut self)
        requires
            old(self).wf(),
        ensures
            final(self).wf(),
            final(self)@ == spec_entry_end(old(self)@),
    {
        match &mut self.mode {
            SaveMode::Inactive => {},
            SaveMode::Active { filename, filename_cursor, .. } => {
                *filename_cursor = filename.len();
            },
        }
    }

    /// Where the terminal cursor goes: inside the text window when editing,
    /// on the bottom row at the entry's cursor when saving.
    pub fn screen_cursor(&self, cursor: Cursor, height: usize) -> (r: (usize, usize))
        requires
            self.wf(),
            height >= 1,
            !is_active(self@) ==> self@.scroll_x <= cursor.col && self@.scroll_y <= cursor.row,
        ensures
            !is_active(self@) ==> r.0 == cursor.col - self@.scroll_x && r.1 == cursor.row
                - self@.scroll_y,
            is_active(self@) ==> r.0 == entry_pos(self@) && r.1 == height - 1,
    {
        match &self.mode {
            SaveMode::Inactive => (cursor.col - self.scroll_x, cursor.row - self.scroll_y),
            SaveMode::Active { filename_cursor, .. } => (*filename_cursor, height - 1),
        }
    }
}

fn follow_exec(off: usize, pos: usize, size: usize) -> (r: usize)
    ensures
        r == follow(off as int, pos as int, size as int),
{
    if pos < off {
        pos
    } else if size > 0 && pos - off >= size {
        pos - size + 1
    } else {
        off
    }
}

} // verus!
