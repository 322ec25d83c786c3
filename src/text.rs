use vstd::prelude::*;

verus! {

/// A logical cursor: a line index and a column within that line.
#[derive(Clone, Copy, Debug, PartialEq, Eq, Structural)]
pub struct Cursor {
    pub row: usize,
    pub col: usize,
}

/// The mathematical picture of a text model: its lines and its cursor.
pub struct TextState {
    pub lines: Seq<Seq<char>>,
    pub row: int,
    pub col: int,
}

pub open spec fn no_newline(l: Seq<char>) -> bool {
    forall|j: int| 0 <= j < l.len() ==> l[j] != '\n'
}

/// A buffer of at least one line, none holding a line break, and a cursor inside it.
pub open spec fn wf_state(s: TextState) -> bool {
    &&& s.lines.len() >= 1
    &&& 0 <= s.row < s.lines.len()
    &&& 0 <= s.col <= s.lines[s.row].len()
    &&& forall|i: int| 0 <= i < s.lines.len() ==> no_newline(#[trigger] s.lines[i])
}

pub open spec fn min_int(a: int, b: int) -> int {
    if a <= b {
        a
    } else {
        b
    }
}

pub open spec fn cur_line(s: TextState) -> Seq<char> {
    s.lines[s.row]
}

pub open spec fn spec_insert_char(s: TextState, c: char) -> TextState {
    TextState {
        lines: s.lines.update(s.row, cur_line(s).insert(s.col, c)),
        row: s.row,
        col: s.col + 1,
    }
}

pub open spec fn spec_insert_newline(s: TextState) -> TextState {
    TextState {
        lines: s.lines.update(s.row, cur_line(s).take(s.col)).insert(
            s.row + 1,
            cur_line(s).skip(s.col),
        ),
        row: s.row + 1,
        col: 0,
    }
}

pub open spec fn spec_delete_char_before(s: TextState) -> TextState {
    if s.col > 0 {
        TextState {
            lines: s.lines.update(s.row, cur_line(s).remove(s.col - 1)),
            row: s.row,
            col: s.col - 1,
        }
    } else if s.row > 0 {
        TextState {
            lines: s.lines.update(s.row - 1, s.lines[s.row - 1] + cur_line(s)).remove(s.row),
            row: s.row - 1,
            col: s.lines[s.row - 1].len() as int,
        }
    } else {
        s
    }
}

pub open spec fn spec_delete_line_contents(s: TextState) -> TextState {
    TextState { lines: s.lines.update(s.row, Seq::empty()), row: s.row, col: 0 }
}

/// Moves to `row`, keeping the column where the target line is long enough.
pub open spec fn spec_goto_row(s: TextState, row: int) -> TextState {
    TextState { lines: s.lines, row: row, col: min_int(s.col, s.lines[row].len() as int) }
}

pub open spec fn spec_move_up(s: TextState) -> TextState {
    if s.row > 0 {
        spec_goto_row(s, s.row - 1)
    } else {
        s
    }
}

pub open spec fn spec_move_down(s: TextState) -> TextState {
    if s.row + 1 < s.lines.len() {
        spec_goto_row(s, s.row + 1)
    } else {
        s
    }
}

pub open spec fn spec_move_left(s: TextState) -> TextState {
    if s.col > 0 {
        TextState { col: s.col - 1, ..s }
    } else {
        s
    }
}

pub open spec fn spec_move_right(s: TextState) -> TextState {
    if s.col < cur_line(s).len() {
        TextState { col: s.col + 1, ..s }
    } else {
        s
    }
}

pub open spec fn spec_move_to_line_start(s: TextState) -> TextState {
    TextState { col: 0, ..s }
}

pub open spec fn spec_move_to_line_end(s: TextState) -> TextState {
    TextState { col: cur_line(s).len() as int, ..s }
}

pub open spec fn spec_move_to_first_line(s: TextState) -> TextState {
    spec_goto_row(s, 0)
}

pub open spec fn spec_move_to_last_line(s: TextState) -> TextState {
    spec_goto_row(s, s.lines.len() - 1)
}

/// One editing or navigation step on a text model.
#[derive(Clone, Copy, Debug, PartialEq, Eq, Structural)]
pub enum EditOp {
    InsertChar(char),
    InsertNewline,
    DeleteCharBefore,
    DeleteLineContents,
    MoveUp,
    MoveDown,
    MoveLeft,
    MoveRight,
    MoveToLineStart,
    MoveToLineEnd,
    MoveToFirstLine,
    MoveToLastLine,
}

/// The effect of one step; a line-break character splits the line as Enter does.
pub open spec fn spec_apply(s: TextState, op: EditOp) -> TextState {
    match op {
        EditOp::InsertChar(c) => if c == '\n' {
            spec_insert_newline(s)
        } else {
            spec_insert_char(s, c)
        },
        EditOp::InsertNewline => spec_insert_newline(s),
        EditOp::DeleteCharBefore => spec_delete_char_before(s),
        EditOp::DeleteLineContents => spec_delete_line_contents(s),
        EditOp::MoveUp => spec_move_up(s),
        EditOp::MoveDown => spec_move_down(s),
        EditOp::MoveLeft => spec_move_left(s),
        EditOp::MoveRight => spec_move_right(s),
        EditOp::MoveToLineStart => spec_move_to_line_start(s),
        EditOp::MoveToLineEnd => spec_move_to_line_end(s),
        EditOp::MoveToFirstLine => spec_move_to_first_line(s),
        EditOp::MoveToLastLine => spec_move_to_last_line(s),
    }
}

/// The effect of a sequence of steps, applied from first to last.
pub open spec fn spec_apply_all(s: TextState, ops: Seq<EditOp>) -> TextState
    decreases ops.len(),
{
    if ops.len() == 0 {
        s
    } else {
        spec_apply_all(spec_apply(s, ops[0]), ops.drop_first())
    }
}

/// Every single step keeps the buffer non-empty, free of line breaks inside
/// lines, and the cursor within the buffer.
pub proof fn lemma_apply_keeps_wf(s: TextState, op: EditOp)
    requires
        wf_state(s),
    ensures
        wf_state(spec_apply(s, op)),
{
    let t = spec_apply(s, op);
    match op {
        EditOp::InsertChar(c) => {
            if c == '\n' {
                lemma_newline_keeps_wf(s);
            } else {
                assert forall|i: int| 0 <= i < t.lines.len() implies no_newline(
                    #[trigger] t.lines[i],
                ) by {
                    assert(no_newline(s.lines[i]));
                    if i == s.row {
                        let l = s.lines[i];
                        assert forall|j: int| 0 <= j < t.lines[i].len() implies t.lines[i][j]
                            != '\n' by {
                            if j < s.col {
                                assert(t.lines[i][j] == l[j]);
                            } else if j > s.col {
                                assert(t.lines[i][j] == l[j - 1]);
                            }
                        }
                    }
                }
            }
        },
        EditOp::InsertNewline => lemma_newline_keeps_wf(s),
        EditOp::DeleteCharBefore => {
            if s.col > 0 {
                assert forall|i: int| 0 <= i < t.lines.len() implies no_newline(
                    #[trigger] t.lines[i],
                ) by {
                    assert(no_newline(s.lines[i]));
                    if i == s.row {
                        assert forall|j: int| 0 <= j < t.lines[i].len() implies t.lines[i][j]
                            != '\n' by {
                            if j < s.col - 1 {
                                assert(t.lines[i][j] == s.lines[i][j]);
                            } else {
                                assert(t.lines[i][j] == s.lines[i][j + 1]);
                            }
                        }
                    }
                }
            } else if s.row > 0 {
                assert forall|i: int| 0 <= i < t.lines.len() implies no_newline(
                    #[trigger] t.lines[i],
                ) by {
                    if i < s.row - 1 {
                        assert(t.lines[i] == s.lines[i]);
                    } else if i >= s.row {
                        assert(t.lines[i] == s.lines[i + 1]);
                    } else {
                        let a = s.lines[s.row - 1];
                        let b = s.lines[s.row];
                        assert(no_newline(a));
                        assert(no_newline(b));
                        assert forall|j: int| 0 <= j < t.lines[i].len() implies t.lines[i][j]
                            != '\n' by {
                            if j < a.len() {
                                assert(t.lines[i][j] == a[j]);
                            } else {
                                assert(t.lines[i][j] == b[j - a.len()]);
                            }
                        }
                    }
                }
            }
        },
        EditOp::DeleteLineContents => {
            assert forall|i: int| 0 <= i < t.lines.len() implies no_newline(
                #[trigger] t.lines[i],
            ) by {
                if i != s.row {
                    assert(t.lines[i] == s.lines[i]);
                }
            }
        },
        _ => {},
    }
}

proof fn lemma_newline_keeps_wf(s: TextState)
    requires
        wf_state(s),
    ensures
        wf_state(spec_insert_newline(s)),
{
    let t = spec_insert_newline(s);
    assert forall|i: int| 0 <= i < t.lines.len() implies no_newline(#[trigger] t.lines[i]) by {
        assert(no_newline(s.lines[s.row]));
        if i < s.row {
            assert(t.lines[i] == s.lines[i]);
        } else if i > s.row + 1 {
            assert(t.lines[i] == s.lines[i - 1]);
        }
    }
}

/// For every sequence of steps from a well-formed state, the buffer keeps at
/// least one line and the cursor stays within the buffer: on an existing row,
/// at a column no greater than that row's length.
pub proof fn lemma_apply_all_keeps_wf(s: TextState, ops: Seq<EditOp>)
    requires
        wf_state(s),
    ensures
        wf_state(spec_apply_all(s, ops)),
        spec_apply_all(s, ops).lines.len() >= 1,
        0 <= spec_apply_all(s, ops).row < spec_apply_all(s, ops).lines.len(),
        0 <= spec_apply_all(s, ops).col <= spec_apply_all(s, ops).lines[spec_apply_all(
            s,
            ops,
        ).row].len(),
    decreases ops.len(),
{
    if ops.len() > 0 {
        lemma_apply_keeps_wf(s, ops[0]);
        lemma_apply_all_keeps_wf(spec_apply(s, ops[0]), ops.drop_first());
    }
}

/// Splitting a line at the cursor and then deleting the character before the
/// new cursor joins the two halves again: the text and the cursor are as before.
pub proof fn lemma_split_then_join(s: TextState)
    requires
        wf_state(s),
    ensures
        spec_delete_char_before(spec_insert_newline(s)) == s,
{
    let t = spec_insert_newline(s);
    let u = spec_delete_char_before(t);
    let l = s.lines[s.row];
    assert(t.lines[s.row] == l.take(s.col));
    assert(t.lines[s.row + 1] == l.skip(s.col));
    assert(l.take(s.col) + l.skip(s.col) =~= l);
    assert(u.lines =~= s.lines);
}

/// `t` cut at every line feed: one piece more than `t` has line feeds.
pub open spec fn pieces(t: Seq<char>) -> Seq<Seq<char>>
    decreases t.len(),
{
    if t.len() == 0 {
        seq![Seq::empty()]
    } else {
        let p = pieces(t.drop_last());
        if t.last() == '\n' {
            p.push(Seq::empty())
        } else {
            p.update(p.len() - 1, p.last().push(t.last()))
        }
    }
}

/// A line that was ended by `\r\n` loses its carriage return.
pub open spec fn strip_cr(l: Seq<char>) -> Seq<char> {
    if l.len() > 0 && l.last() == '\r' {
        l.drop_last()
    } else {
        l
    }
}

/// The lines of a text: each line feed (or `\r\n`) ends a line, a final line
/// feed opens no further line, and an empty text gives one empty line.
pub open spec fn lines_of(t: Seq<char>) -> Seq<Seq<char>> {
    let p = pieces(t);
    let ended = p.drop_last().map_values(|l: Seq<char>| strip_cr(l));
    if p.last().len() == 0 {
        if ended.len() == 0 {
            seq![Seq::empty()]
        } else {
            ended
        }
    } else {
        ended.push(p.last())
    }
}

/// The lines written one after another, a line feed between two neighbours.
pub open spec fn joined(lines: Seq<Seq<char>>) -> Seq<char>
    decreases lines.len(),
{
    if lines.len() <= 1 {
        if lines.len() == 0 {
            Seq::empty()
        } else {
            lines[0]
        }
    } else {
        joined(lines.drop_last()) + seq!['\n'] + lines.last()
    }
}

pub(crate) fn push_all(out: &mut Vec<char>, src: &Vec<char>)
    ensures
        final(out)@ == old(out)@ + src@,
{
    let mut i: usize = 0;
    while i < src.len()
        invariant
            i <= src@.len(),
            out@ == old(out)@ + src@.take(i as int),
        decreases src@.len() - i,
    {
        out.push(src[i]);
        i = i + 1;
        assert(src@.take(i as int) =~= src@.take(i - 1).push(src@[i - 1]));
    }
    assert(src@.take(i as int) =~= src@);
}

/// Inserts `c` into `buffer[cursor_y]` before column `cursor_x`.
pub fn insert(buffer: &mut Vec<Vec<char>>, cursor_x: usize, cursor_y: usize, c: char)
    requires
        cursor_y < old(buffer)@.len(),
        cursor_x <= old(buffer)@[cursor_y as int]@.len(),
    ensures
        final(buffer)@.len() == old(buffer)@.len(),
        final(buffer)@[cursor_y as int]@ == old(buffer)@[cursor_y as int]@.insert(
            cursor_x as int,
            c,
        ),
        forall|i: int|
            0 <= i < old(buffer)@.len() && i != cursor_y ==> #[trigger] final(buffer)@[i]
                == old(buffer)@[i],
{
    buffer[cursor_y].insert(cursor_x, c);
}


pub open spec fn lines_view(v: Seq<Vec<char>>) -> Seq<Seq<char>> {
    v.map_values(|l: Vec<char>| l@)
}

/// The buffer of lines together with the logical cursor.
pub struct TextModel {
    lines: Vec<Vec<char>>,
    row: usize,
    col: usize,
}

impl View for TextModel {
    type V = TextState;

    closed spec fn view(&self) -> TextState {
        TextState { lines: lines_view(self.lines@), row: self.row as int, col: self.col as int }
    }
}

impl TextModel {
    pub open spec fn wf(&self) -> bool {
        wf_state(self@)
    }

    /// A buffer holding a single empty line, with the cursor at its start.
    pub fn new() -> (r: TextModel)
        ensures
            r.wf(),
            r@.lines == seq![Seq::<char>::empty()],
            r@.row == 0,
            r@.col == 0,
    {
        let mut lines: Vec<Vec<char>> = Vec::new();
        lines.push(Vec::new());
        let r = TextModel { lines, row: 0, col: 0 };
        assert(r@.lines =~= seq![Seq::<char>::empty()]);
        r
    }

    /// A buffer holding the lines of `text`, with the cursor at its start.
    pub fn from_text(text: &Vec<char>) -> (r: TextModel)
        ensures
            r.wf(),
            r@.lines == lines_of(text@),
            r@.row == 0,
            r@.col == 0,
    {
        let mut done: Vec<Vec<char>> = Vec::new();
        let mut cur: Vec<char> = Vec::new();
        let mut i: usize = 0;
        while i < text.len()
            invariant
                i <= text@.len(),
                pieces(text@.take(i as int)).len() >= 1,
                lines_view(done@) == pieces(text@.take(i as int)).drop_last().map_values(
                    |l: Seq<char>| strip_cr(l),
                ),
                cur@ == pieces(text@.take(i as int)).last(),
                forall|k: int| 0 <= k < done@.len() ==> no_newline(#[trigger] done@[k]@),
                no_newline(cur@),
            decreases text@.len() - i,
        {
            let ghost before = text@.take(i as int);
            let ghost p = pieces(before);
            let ghost mapped = lines_view(done@);
            let ch = text[i];
            i = i + 1;
            let ghost after = text@.take(i as int);
            assert(after.drop_last() =~= before);
            assert(after.last() == ch);
            if ch == '\n' {
                let n = cur.len();
                if n > 0 && cur[n - 1] == '\r' {
                    cur.pop();
                }
                assert(cur@ == strip_cr(p.last()));
                let mut line: Vec<char> = Vec::new();
                std::mem::swap(&mut line, &mut cur);
                done.push(line);
                assert(pieces(after) == p.push(Seq::empty()));
                assert(pieces(after).drop_last() =~= p);
                assert(p =~= p.drop_last().push(p.last()));
                assert(lines_view(done@) =~= mapped.push(strip_cr(p.last())));
                assert(lines_view(done@) =~= pieces(after).drop_last().map_values(
                    |l: Seq<char>| strip_cr(l),
                ));
            } else {
                cur.push(ch);
                assert(pieces(after) == p.update(p.len() - 1, p.last().push(ch)));
                assert(pieces(after).drop_last() =~= p.drop_last());
            }
        }
        assert(text@.take(i as int) =~= text@);
        let ghost p = pieces(text@);
        if cur.len() > 0 {
            done.push(cur);
            assert(lines_view(done@) =~= lines_of(text@));
        } else if done.len() == 0 {
            assert(cur@ =~= Seq::<char>::empty());
            assert(p.drop_last().map_values(|l: Seq<char>| strip_cr(l)).len() == 0);
            done.push(cur);
            assert(lines_view(done@) =~= seq![Seq::<char>::empty()]);
            assert(lines_view(done@) =~= lines_of(text@));
        } else {
            assert(lines_view(done@) =~= lines_of(text@));
        }
        let r = TextModel { lines: done, row: 0, col: 0 };
        assert forall|k: int| 0 <= k < r@.lines.len() implies no_newline(#[trigger] r@.lines[k]) by {
            assert(r@.lines[k] == done@[k]@);
        }
        r
    }

    /// The whole buffer as one text, lines separated by line feeds.
    pub fn text(&self) -> (r: Vec<char>)
        requires
            self.wf(),
        ensures
            r@ == joined(self@.lines),
    {
        let mut out: Vec<char> = Vec::new();
        push_all(&mut out, &self.lines[0]);
        let mut i: usize = 1;
        assert(self@.lines.take(1) =~= seq![self@.lines[0]]);
        while i < self.lines.len()
            invariant
                1 <= i <= self@.lines.len(),
                self@.lines == lines_view(self.lines@),
                out@ == joined(self@.lines.take(i as int)),
            decreases self@.lines.len() - i,
        {
            out.push('\n');
            push_all(&mut out, &self.lines[i]);
            i = i + 1;
            assert(self@.lines.take(i as int).drop_last() =~= self@.lines.take(i - 1));
        }
        assert(self@.lines.take(i as int) =~= self@.lines);
        out
    }

    pub fn cursor(&self) -> (r: Cursor)
        ensures
            r.row == self@.row,
            r.col == self@.col,
    {
        Cursor { row: self.row, col: self.col }
    }

    pub fn lines(&self) -> (r: &Vec<Vec<char>>)
        ensures
            lines_view(r@) == self@.lines,
    {
        &self.lines
    }

    pub fn line_count(&self) -> (r: usize)
        ensures
            r == self@.lines.len(),
    {
        self.lines.len()
    }

    /// Length of the line the cursor is on.
    pub fn current_line_len(&self) -> (r: usize)
        requires
            self.wf(),
        ensures
            r == cur_line(self@).len(),
    {
        self.lines[self.row].len()
    }

    pub fn insert_char(&mut self, c: char)
        requires
            old(self).wf(),
            c != '\n',
            cur_line(old(self)@).len() < usize::MAX,
        ensures
            final(self).wf(),
            final(self)@ == spec_insert_char(old(self)@, c),
    {
        let ghost s = self@;
        insert(&mut self.lines, self.col, self.row, c);
        self.col = self.col + 1;
        assert(self@.lines =~= spec_insert_char(s, c).lines);
        assert forall|i: int| 0 <= i < self@.lines.len() implies no_newline(
            #[trigger] self@.lines[i],
        ) by {
            if i == self.row {
                assert(no_newline(s.lines[i]));
            }
        }
    }

    pub fn insert_newline(&mut self)
        requires
            old(self).wf(),
        ensures
            final(self).wf(),
            final(self)@ == spec_insert_newline(old(self)@),
    {
        let ghost s = self@;
        let n = self.lines.len();
        assert(self.row < n);
        let suffix = self.lines[self.row].split_off(self.col);
        self.lines.insert(self.row + 1, suffix);
        self.row = self.row + 1;
        self.col = 0;
        assert(self@.lines =~= spec_insert_newline(s).lines);
        assert forall|i: int| 0 <= i < self@.lines.len() implies no_newline(
            #[trigger] self@.lines[i],
        ) by {
            if i < s.row {
                assert(self@.lines[i] == s.lines[i]);
            } else if i > s.row + 1 {
                assert(self@.lines[i] == s.lines[i - 1]);
            } else {
                assert(no_newline(s.lines[s.row]));
            }
        }
    }

    pub fn delete_char_before(&mut self)
        requires
            old(self).wf(),
        ensures
            final(self).wf(),
            final(self)@ == spec_delete_char_before(old(self)@),
    {
        let ghost s = self@;
        if self.col > 0 {
            self.lines[self.row].remove(self.col - 1);
            self.col = self.col - 1;
            assert(self@.lines =~= spec_delete_char_before(s).lines);
            assert forall|i: int| 0 <= i < self@.lines.len() implies no_newline(
                #[trigger] self@.lines[i],
            ) by {
                assert(no_newline(s.lines[i]));
                if i == s.row {
                    assert forall|j: int| 0 <= j < self@.lines[i].len() implies self@.lines[i][j]
                        != '\n' by {
                        if j < s.col - 1 {
                            assert(self@.lines[i][j] == s.lines[i][j]);
                        } else {
                            assert(self@.lines[i][j] == s.lines[i][j + 1]);
                        }
                    }
                }
            }
        } else if self.row > 0 {
            let mut current = self.lines.remove(self.row);
            self.row = self.row - 1;
            self.col = self.lines[self.row].len();
            self.lines[self.row].append(&mut current);
            assert(self@.lines =~= spec_delete_char_before(s).lines);
            assert forall|i: int| 0 <= i < self@.lines.len() implies no_newline(
                #[trigger] self@.lines[i],
            ) by {
                if i < s.row - 1 {
                    assert(self@.lines[i] == s.lines[i]);
                } else if i >= s.row {
                    assert(self@.lines[i] == s.lines[i + 1]);
                } else {
                    let a = s.lines[s.row - 1];
                    let b = s.lines[s.row];
                    assert(no_newline(a));
                    assert(no_newline(b));
                    assert forall|j: int| 0 <= j < self@.lines[i].len() implies self@.lines[i][j]
                        != '\n' by {
                        if j < a.len() {
                            assert(self@.lines[i][j] == a[j]);
                        } else {
                            assert(self@.lines[i][j] == b[j - a.len()]);
                        }
                    }
                }
            }
        }
    }

    /// Empties the current line and puts the cursor at its start.
    pub fn delete_line_contents(&mut self)
        requires
            old(self).wf(),
        ensures
            final(self).wf(),
            final(self)@ == spec_delete_line_contents(old(self)@),
    {
        let ghost s = self@;
        self.lines[self.row].clear();
        self.col = 0;
        assert(self@.lines =~= spec_delete_line_contents(s).lines);
        assert forall|i: int| 0 <= i < self@.lines.len() implies no_newline(
            #[trigger] self@.lines[i],
        ) by {
            if i != s.row {
                assert(self@.lines[i] == s.lines[i]);
            }
        }
    }

    /// Performs one step.
    pub fn apply(&mut self, op: EditOp)
        requires
            old(self).wf(),
            op is InsertChar ==> cur_line(old(self)@).len() < usize::MAX,
        ensures
            final(self).wf(),
            final(self)@ == spec_apply(old(self)@, op),
    {
        match op {
            EditOp::InsertChar(c) => {
                if c == '\n' {
                    self.insert_newline();
                } else {
                    self.insert_char(c);
                }
            },
            EditOp::InsertNewline => self.insert_newline(),
            EditOp::DeleteCharBefore => self.delete_char_before(),
            EditOp::DeleteLineContents => self.delete_line_contents(),
            EditOp::MoveUp => self.move_up(),
            EditOp::MoveDown => self.move_down(),
            EditOp::MoveLeft => self.move_left(),
            EditOp::MoveRight => self.move_right(),
            EditOp::MoveToLineStart => self.move_to_line_start(),
            EditOp::MoveToLineEnd => self.move_to_line_end(),
            EditOp::MoveToFirstLine => self.move_to_first_line(),
            EditOp::MoveToLastLine => self.move_to_last_line(),
        }
    }

    /// Puts the cursor back at `c`, a place inside the buffer.
    pub fn restore_cursor(&mut self, c: Cursor)
        requires
            old(self).wf(),
            c.row < old(self)@.lines.len(),
            c.col <= old(self)@.lines[c.row as int].len(),
        ensures
            final(self).wf(),
            final(self)@ == (TextState { row: c.row as int, col: c.col as int, ..old(self)@ }),
    {
        self.row = c.row;
        self.col = c.col;
    }

    fn goto_row(&mut self, row: usize)
        requires
            old(self).wf(),
            row < old(self)@.lines.len(),
        ensures
            final(self).wf(),
            final(self)@ == spec_goto_row(old(self)@, row as int),
    {
        self.row = row;
        let len = self.lines[row].len();
        if self.col > len {
            self.col = len;
        }
    }

    pub fn move_up(&mut self)
        requires
            old(self).wf(),
        ensures
            final(self).wf(),
            final(self)@ == spec_move_up(old(self)@),
    {
        if self.row > 0 {
            self.goto_row(self.row - 1);
        }
    }

    pub fn move_down(&mut self)
        requires
            old(self).wf(),
        ensures
            final(self).wf(),
            final(self)@ == spec_move_down(old(self)@),
    {
        if self.row < self.lines.len() - 1 {
            self.goto_row(self.row + 1);
        }
    }

    pub fn move_left(&mut self)
        requires
            old(self).wf(),
        ensures
            final(self).wf(),
            final(self)@ == spec_move_left(old(self)@),
    {
        if self.col > 0 {
            self.col = self.col - 1;
        }
    }

    pub fn move_right(&mut self)
        requires
            old(self).wf(),
        ensures
            final(self).wf(),
            final(self)@ == spec_move_right(old(self)@),
    {
        if self.col < self.lines[self.row].len() {
            self.col = self.col + 1;
        }
    }

    pub fn move_to_line_start(&mut self)
        requires
            old(self).wf(),
        ensures
            final(self).wf(),
            final(self)@ == spec_move_to_line_start(old(self)@),
    {
        self.col = 0;
    }

    pub fn move_to_line_end(&mut self)
        requires
            old(self).wf(),
        ensures
            final(self).wf(),
            final(self)@ == spec_move_to_line_end(old(self)@),
    {
        self.col = self.lines[self.row].len();
    }

    pub fn move_to_first_line(&mut self)
        requires
            old(self).wf(),
        ensures
            final(self).wf(),
            final(self)@ == spec_move_to_first_line(old(self)@),
    {
        self.goto_row(0);
    }

    pub fn move_to_last_line(&mut self)
        requires
            old(self).wf(),
        ensures
            final(self).wf(),
            final(self)@ == spec_move_to_last_line(old(self)@),
    {
        self.goto_row(self.lines.len() - 1);
    }
}

} // verus!
