use vstd::prelude::*;

use crate::frame::{Cell, Color, Frame};
use crate::{VecChar, VecOrChar};

verus! {

/// One command for the terminal driver. The screen never touches the
/// terminal itself: it hands sequences of these to its caller, who issues
/// them to the driver in order.
#[derive(Clone, Copy, PartialEq, Eq, Structural, Debug)]
pub enum Command {
    EnableRawMode,
    DisableRawMode,
    EnterAlternateScreen,
    LeaveAlternateScreen,
    HideCursor,
    ShowCursor,
    SetBackground(Color),
    SetForeground(Color),
    ClearAll,
    /// Move the cursor to `(col, row)` and write `cell` there against the
    /// fixed black background.
    Put { col: usize, row: usize, cell: Cell },
}

/// The commands that set the terminal up for a session: raw input mode,
/// the alternate display surface (skipped in debug mode), a hidden cursor,
/// default colors, and one full clear.
pub open spec fn setup_seq(debug: bool) -> Seq<Command> {
    if debug {
        seq![
            Command::EnableRawMode,
            Command::HideCursor,
            Command::SetBackground(Color::Black),
            Command::SetForeground(Color::White),
            Command::ClearAll,
        ]
    } else {
        seq![
            Command::EnableRawMode,
            Command::EnterAlternateScreen,
            Command::HideCursor,
            Command::SetBackground(Color::Black),
            Command::SetForeground(Color::White),
            Command::ClearAll,
        ]
    }
}

/// The commands that restore the terminal: normal input mode, a visible
/// cursor, and (outside debug mode) the original display surface.
pub open spec fn teardown_seq(debug: bool) -> Seq<Command> {
    if debug {
        seq![Command::DisableRawMode, Command::ShowCursor]
    } else {
        seq![Command::DisableRawMode, Command::ShowCursor, Command::LeaveAlternateScreen]
    }
}

/// The write commands a render emits for column `c`, rows `0..r`: one
/// `Put` of the current cell, in row order, for exactly the rows where the
/// current frame differs from the baseline.
pub open spec fn diff_col_upto(curr: Frame, last: Frame, c: int, r: int) -> Seq<Command>
    decreases r,
{
    if r <= 0 {
        Seq::empty()
    } else {
        diff_col_upto(curr, last, c, r - 1) + if curr.cell(c, r - 1) != last.cell(c, r - 1) {
            seq![
                Command::Put {
                    col: c as usize,
                    row: (r - 1) as usize,
                    cell: curr.cell(c, r - 1),
                },
            ]
        } else {
            Seq::empty()
        }
    }
}

/// The write commands a render emits for columns `0..c`, column by column.
pub open spec fn diff_upto(curr: Frame, last: Frame, c: int) -> Seq<Command>
    decreases c,
{
    if c <= 0 {
        Seq::empty()
    } else {
        diff_upto(curr, last, c - 1) + diff_col_upto(curr, last, c - 1, curr.rows as int)
    }
}

/// Every write command a render of `curr` against the baseline `last`
/// emits: a `Put` for exactly the coordinates whose cells differ, scanned
/// column-major (all rows of column 0, then column 1, and so on).
pub open spec fn frame_diff(curr: Frame, last: Frame) -> Seq<Command> {
    diff_upto(curr, last, curr.cols as int)
}

/// Two frames with the same dimensions and the same cell everywhere have
/// an empty diff: a render with no changes emits no write commands.
pub proof fn lemma_no_change_no_commands(curr: Frame, last: Frame)
    requires
        curr.same_cells(last),
    ensures
        frame_diff(curr, last) == Seq::<Command>::empty(),
{
    assert forall|c: int| 0 <= c <= curr.cols implies diff_upto(curr, last, c)
        =~= Seq::<Command>::empty() by {
        lemma_diff_upto_empty(curr, last, c);
    }
    assert(frame_diff(curr, last) =~= Seq::<Command>::empty());
}

proof fn lemma_diff_col_upto_empty(curr: Frame, last: Frame, c: int, r: int)
    requires
        0 <= c < curr.cols,
        r <= curr.rows,
        curr.same_cells(last),
    ensures
        diff_col_upto(curr, last, c, r) =~= Seq::<Command>::empty(),
    decreases r,
{
    if r > 0 {
        lemma_diff_col_upto_empty(curr, last, c, r - 1);
    }
}

proof fn lemma_diff_upto_empty(curr: Frame, last: Frame, c: int)
    requires
        c <= curr.cols,
        curr.same_cells(last),
    ensures
        diff_upto(curr, last, c) =~= Seq::<Command>::empty(),
    decreases c,
{
    if c > 0 {
        lemma_diff_upto_empty(curr, last, c - 1);
        lemma_diff_col_upto_empty(curr, last, c - 1, curr.rows as int);
    }
}

/// Relies on crossterm::terminal::size: reports the terminal's current
/// dimensions as `(columns, rows)`, or fails when no terminal answers the
/// query. The result depends on the running terminal, so nothing is
/// promised of it.
#[verifier::external_body]
fn query_size() -> (r: Option<(u16, u16)>) {
    match crossterm::terminal::size() {
        Ok(dims) => Some(dims),
        Err(_) => None,
    }
}

/// `cmd` writes the current cell of a coordinate where `curr` really
/// differs from the baseline `last`.
pub open spec fn put_marks_change(curr: Frame, last: Frame, cmd: Command) -> bool {
    match cmd {
        Command::Put { col, row, cell } => {
            &&& col < curr.cols
            &&& row < curr.rows
            &&& curr.cell(col as int, row as int) != last.cell(col as int, row as int)
            &&& cell == curr.cell(col as int, row as int)
        },
        _ => false,
    }
}

proof fn lemma_diff_col_upto_marks_changes(curr: Frame, last: Frame, c: int, r: int)
    requires
        0 <= c < curr.cols,
        0 <= r <= curr.rows,
    ensures
        forall|k: int|
            0 <= k < diff_col_upto(curr, last, c, r).len() ==> put_marks_change(
                curr,
                last,
                diff_col_upto(curr, last, c, r)[k],
            ),
    decreases r,
{
    if r > 0 {
        lemma_diff_col_upto_marks_changes(curr, last, c, r - 1);
        let prefix = diff_col_upto(curr, last, c, r - 1);
        let whole = diff_col_upto(curr, last, c, r);
        assert forall|k: int| 0 <= k < whole.len() implies put_marks_change(
            curr,
            last,
            whole[k],
        ) by {
            if k < prefix.len() {
                assert(whole[k] == prefix[k]);
            } else {
                assert(whole[k] == (Command::Put {
                    col: c as usize,
                    row: (r - 1) as usize,
                    cell: curr.cell(c, r - 1),
                }));
            }
        }
    }
}

proof fn lemma_diff_upto_marks_changes(curr: Frame, last: Frame, c: int)
    requires
        c <= curr.cols,
    ensures
        forall|k: int|
            0 <= k < diff_upto(curr, last, c).len() ==> put_marks_change(
                curr,
                last,
                diff_upto(curr, last, c)[k],
            ),
    decreases c,
{
    if c > 0 {
        lemma_diff_upto_marks_changes(curr, last, c - 1);
        lemma_diff_col_upto_marks_changes(curr, last, c - 1, curr.rows as int);
        let prefix = diff_upto(curr, last, c - 1);
        let colseq = diff_col_upto(curr, last, c - 1, curr.rows as int);
        let whole = diff_upto(curr, last, c);
        assert forall|k: int| 0 <= k < whole.len() implies put_marks_change(
            curr,
            last,
            whole[k],
        ) by {
            if k < prefix.len() {
                assert(whole[k] == prefix[k]);
            } else {
                assert(whole[k] == colseq[k - prefix.len()]);
            }
        }
    }
}

proof fn lemma_diff_col_upto_contains_change(curr: Frame, last: Frame, c: int, j: int, r: int)
    requires
        0 <= c < curr.cols,
        0 <= j < r <= curr.rows,
        curr.cell(c, j) != last.cell(c, j),
    ensures
        diff_col_upto(curr, last, c, r).contains(
            Command::Put { col: c as usize, row: j as usize, cell: curr.cell(c, j) },
        ),
    decreases r,
{
    let cmd = Command::Put { col: c as usize, row: j as usize, cell: curr.cell(c, j) };
    let prefix = diff_col_upto(curr, last, c, r - 1);
    if j == r - 1 {
        assert(diff_col_upto(curr, last, c, r)[prefix.len() as int] == cmd);
    } else {
        lemma_diff_col_upto_contains_change(curr, last, c, j, r - 1);
        let k = choose|k: int| 0 <= k < prefix.len() && prefix[k] == cmd;
        assert(diff_col_upto(curr, last, c, r)[k] == cmd);
    }
}

proof fn lemma_diff_upto_contains_change(curr: Frame, last: Frame, i: int, j: int, c: int)
    requires
        0 <= i < c <= curr.cols,
        0 <= j < curr.rows,
        curr.cell(i, j) != last.cell(i, j),
    ensures
        diff_upto(curr, last, c).contains(
            Command::Put { col: i as usize, row: j as usize, cell: curr.cell(i, j) },
        ),
    decreases c,
{
    let cmd = Command::Put { col: i as usize, row: j as usize, cell: curr.cell(i, j) };
    let prefix = diff_upto(curr, last, c - 1);
    if i == c - 1 {
        lemma_diff_col_upto_contains_change(curr, last, i, j, curr.rows as int);
        let col_cmds = diff_col_upto(curr, last, i, curr.rows as int);
        let k = choose|k: int| 0 <= k < col_cmds.len() && col_cmds[k] == cmd;
        assert(diff_upto(curr, last, c)[prefix.len() + k] == cmd);
    } else {
        lemma_diff_upto_contains_change(curr, last, i, j, c - 1);
        let k = choose|k: int| 0 <= k < prefix.len() && prefix[k] == cmd;
        assert(diff_upto(curr, last, c)[k] == cmd);
    }
}

/// The diff is minimal and complete: every command it holds is a `Put` at
/// a coordinate where the current frame really differs from the baseline,
/// carrying the current cell — and for every such coordinate the diff
/// holds that `Put`.
pub proof fn lemma_diff_writes_exactly_the_changes(curr: Frame, last: Frame)
    requires
        curr.cols == last.cols,
        curr.rows == last.rows,
    ensures
        forall|k: int|
            0 <= k < frame_diff(curr, last).len() ==> put_marks_change(
                curr,
                last,
                frame_diff(curr, last)[k],
            ),
        forall|c: int, r: int|
            0 <= c < curr.cols && 0 <= r < curr.rows && #[trigger] curr.cell(c, r)
                != last.cell(c, r) ==> frame_diff(curr, last).contains(
                Command::Put { col: c as usize, row: r as usize, cell: curr.cell(c, r) },
            ),
{
    lemma_diff_upto_marks_changes(curr, last, curr.cols as int);
    assert forall|c: int, r: int|
        0 <= c < curr.cols && 0 <= r < curr.rows && #[trigger] curr.cell(c, r) != last.cell(
            c,
            r,
        ) implies frame_diff(curr, last).contains(
        Command::Put { col: c as usize, row: r as usize, cell: curr.cell(c, r) },
    ) by {
        lemma_diff_upto_contains_change(curr, last, c, r, curr.cols as int);
    }
}

/// The error of a checked draw: the run does not lie inside the grid.
#[derive(Clone, Copy, PartialEq, Eq, Structural, Debug)]
pub enum DrawError {
    OutOfBounds,
}

/// Why a render had to give up: the terminal driver could not report a
/// size, or the reported size is smaller than the configured grid in at
/// least one dimension.
#[derive(Clone, Copy, PartialEq, Eq, Structural, Debug)]
pub enum FatalKind {
    SizeUnavailable,
    TooSmall { have_cols: u16, have_rows: u16 },
}

/// The fatal outcome of a render: the session has closed itself, and
/// `commands` restores the terminal when issued. The caller is expected to
/// report `kind` and stop; it cannot keep drawing into a surface smaller
/// than the configured grid.
#[derive(Debug)]
pub struct Fatal {
    pub commands: Vec<Command>,
    pub kind: FatalKind,
}

/// A text-mode screen session: two frames of equal dimensions — `curr_frame`
/// receives draw calls, `last_frame` is the baseline that the terminal is
/// known to show — plus the lifecycle flags.
pub struct Screen {
    pub cols: usize,
    pub rows: usize,
    pub curr_frame: Frame,
    pub last_frame: Frame,
    pub closed: bool,
    pub debug: bool,
}

impl Screen {
    /// Both frames are well-formed grids of the configured dimensions.
    pub open spec fn wf(self) -> bool {
        &&& self.curr_frame.wf()
        &&& self.last_frame.wf()
        &&& self.curr_frame.cols == self.cols
        &&& self.curr_frame.rows == self.rows
        &&& self.last_frame.cols == self.cols
        &&& self.last_frame.rows == self.rows
    }

    /// Create a session of the given size. The terminal itself is prepared
    /// by issuing [`setup_commands`](Screen::setup_commands) to the driver.
    pub fn new(cols: usize, rows: usize, debug: bool) -> (s: Screen)
        ensures
            s.wf(),
            s.cols == cols,
            s.rows == rows,
            s.debug == debug,
            !s.closed,
            s.curr_frame.all_blank(),
            s.last_frame.all_blank(),
    {
        Screen {
            cols,
            rows,
            curr_frame: Frame::new(cols, rows),
            last_frame: Frame::new(cols, rows),
            closed: false,
            debug,
        }
    }

    /// The commands that prepare the terminal for this session, to be issued
    /// once, right after construction.
    pub fn setup_commands(&self) -> (cmds: Vec<Command>)
        ensures
            cmds@ == setup_seq(self.debug),
    {
        let mut cmds: Vec<Command> = Vec::new();
        cmds.push(Command::EnableRawMode);
        if !self.debug {
            cmds.push(Command::EnterAlternateScreen);
        }
        cmds.push(Command::HideCursor);
        cmds.push(Command::SetBackground(Color::Black));
        cmds.push(Command::SetForeground(Color::White));
        cmds.push(Command::ClearAll);
        proof {
            assert(cmds@ =~= setup_seq(self.debug));
        }
        cmds
    }

    /// The current frame has taken exactly the run `cs`, styled with `color`
    /// and `bold`, at `(col, row)`: those cells hold the run's characters in
    /// order, and every other cell is untouched.
    pub open spec fn run_drawn(
        pre: Frame,
        post: Frame,
        col: int,
        row: int,
        cs: Seq<char>,
        color: Color,
        bold: bool,
    ) -> bool {
        &&& post.cols == pre.cols
        &&& post.rows == pre.rows
        &&& forall|i: int|
            0 <= i < cs.len() ==> post.cell(col + i, row) == (Cell {
                ch: cs[i],
                fg: color,
                bold,
            })
        &&& forall|c: int, r: int|
            0 <= c < pre.cols && 0 <= r < pre.rows && !(r == row && col <= c < col + cs.len())
                ==> post.cell(c, r) == pre.cell(c, r)
    }

    /// Write the run `cs` into the current frame at `(col, row)`.
    fn draw_cells(&mut self, col: usize, row: usize, cs: &Vec<char>, color: Color, bold: bool)
        requires
            old(self).wf(),
            row < old(self).rows,
            col + cs@.len() <= old(self).cols,
        ensures
            final(self).wf(),
            final(self).cols == old(self).cols,
            final(self).rows == old(self).rows,
            final(self).closed == old(self).closed,
            final(self).debug == old(self).debug,
            final(self).last_frame == old(self).last_frame,
            Screen::run_drawn(
                old(self).curr_frame,
                final(self).curr_frame,
                col as int,
                row as int,
                cs@,
                color,
                bold,
            ),
    {
        let n = cs.len();
        let mut i: usize = 0;
        while i < n
            invariant
                n == cs@.len(),
                i <= n,
                row < old(self).rows,
                col + n <= old(self).cols,
                self.wf(),
                self.cols == old(self).cols,
                self.rows == old(self).rows,
                self.closed == old(self).closed,
                self.debug == old(self).debug,
                self.last_frame == old(self).last_frame,
                forall|k: int|
                    0 <= k < i ==> self.curr_frame.cell(col + k, row as int) == (Cell {
                        ch: cs@[k],
                        fg: color,
                        bold,
                    }),
                forall|c: int, r: int|
                    0 <= c < self.cols && 0 <= r < self.rows && !(r == row && col <= c < col + i)
                        ==> self.curr_frame.cell(c, r) == old(self).curr_frame.cell(c, r),
            decreases n - i,
        {
            self.curr_frame.set(col + i, row, Cell { ch: cs[i], fg: color, bold });
            i += 1;
        }
    }

    /// Write `content`, styled with `color` and `bold`, into the current
    /// frame starting at `(col, row)` and advancing one column per
    /// character. Nothing reaches the terminal until the next render.
    pub fn draw_content(
        &mut self,
        col: usize,
        row: usize,
        content: VecOrChar,
        color: Color,
        bold: bool,
    )
        requires
            old(self).wf(),
            row < old(self).rows,
            col + content.chars().len() <= old(self).cols,
        ensures
            final(self).wf(),
            final(self).cols == old(self).cols,
            final(self).rows == old(self).rows,
            final(self).closed == old(self).closed,
            final(self).debug == old(self).debug,
            final(self).last_frame == old(self).last_frame,
            Screen::run_drawn(
                old(self).curr_frame,
                final(self).curr_frame,
                col as int,
                row as int,
                content.chars(),
                color,
                bold,
            ),
    {
        match content {
            VecOrChar::Run(v) => self.draw_cells(col, row, &v, color, bold),
            VecOrChar::Single(c) => {
                self.curr_frame.set(col, row, Cell { ch: c, fg: color, bold });
            },
        }
    }

    /// Like [`draw_content`](Screen::draw_content), but checked: draws only
    /// when the run lies inside the grid, and reports the contract
    /// violation instead of demanding the bounds from its caller. On an
    /// out-of-bounds run nothing changes.
    pub fn try_draw(
        &mut self,
        col: usize,
        row: usize,
        content: VecOrChar,
        color: Color,
        bold: bool,
    ) -> (r: Result<(), DrawError>)
        requires
            old(self).wf(),
        ensures
            final(self).wf(),
            final(self).cols == old(self).cols,
            final(self).rows == old(self).rows,
            final(self).closed == old(self).closed,
            final(self).debug == old(self).debug,
            final(self).last_frame == old(self).last_frame,
            r is Ok <==> (row < old(self).rows && col + content.chars().len() <= old(
                self,
            ).cols),
            r is Ok ==> Screen::run_drawn(
                old(self).curr_frame,
                final(self).curr_frame,
                col as int,
                row as int,
                content.chars(),
                color,
                bold,
            ),
            r is Err ==> *final(self) == *old(self) && r == Result::<(), DrawError>::Err(
                DrawError::OutOfBounds,
            ),
    {
        let n = content.len();
        if row < self.rows && n <= self.cols && col <= self.cols - n {
            self.draw_content(col, row, content, color, bold);
            Result::Ok(())
        } else {
            Result::Err(DrawError::OutOfBounds)
        }
    }

    /// Draw `chars` (a string or a single character) at `(col, row)` in the
    /// given color. The run must fit inside the grid.
    pub fn draw<C: VecChar>(&mut self, col: usize, row: usize, chars: C, color: Color)
        requires
            old(self).wf(),
            row < old(self).rows,
            col + chars.chars_spec().len() <= old(self).cols,
        ensures
            final(self).wf(),
            final(self).cols == old(self).cols,
            final(self).rows == old(self).rows,
            final(self).closed == old(self).closed,
            final(self).debug == old(self).debug,
            final(self).last_frame == old(self).last_frame,
            Screen::run_drawn(
                old(self).curr_frame,
                final(self).curr_frame,
                col as int,
                row as int,
                chars.chars_spec(),
                color,
                false,
            ),
    {
        let content = chars.vec_char();
        self.draw_content(col, row, content, color, false);
    }

    /// Draw `chars` at `(col, row)` in the given color, bold.
    pub fn draw_bold<C: VecChar>(&mut self, col: usize, row: usize, chars: C, color: Color)
        requires
            old(self).wf(),
            row < old(self).rows,
            col + chars.chars_spec().len() <= old(self).cols,
        ensures
            final(self).wf(),
            final(self).cols == old(self).cols,
            final(self).rows == old(self).rows,
            final(self).closed == old(self).closed,
            final(self).debug == old(self).debug,
            final(self).last_frame == old(self).last_frame,
            Screen::run_drawn(
                old(self).curr_frame,
                final(self).curr_frame,
                col as int,
                row as int,
                chars.chars_spec(),
                color,
                true,
            ),
    {
        let content = chars.vec_char();
        self.draw_content(col, row, content, color, true);
    }

    /// One render cycle, given what the terminal driver reported as its
    /// current size. If no size is available, or the terminal is smaller
    /// than the configured grid in either dimension, the session closes
    /// itself and the fatal result carries the restore commands. Otherwise
    /// the result is one `Put` per cell where the current frame differs
    /// from the baseline, scanned column-major; the current frame becomes
    /// the new baseline and a blank current frame takes its place.
    pub fn render_with_size(&mut self, size: Option<(u16, u16)>) -> (r: Result<Vec<Command>, Fatal>)
        requires
            old(self).wf(),
        ensures
            final(self).wf(),
            final(self).cols == old(self).cols,
            final(self).rows == old(self).rows,
            final(self).debug == old(self).debug,
            r is Ok <==> (size matches Some(sz) && old(self).cols <= sz.0 && old(self).rows
                <= sz.1),
            r matches Ok(cmds) ==> {
                &&& cmds@ == frame_diff(old(self).curr_frame, old(self).last_frame)
                &&& final(self).last_frame == old(self).curr_frame
                &&& final(self).curr_frame.all_blank()
                &&& final(self).closed == old(self).closed
            },
            r matches Err(f) ==> {
                &&& final(self).closed
                &&& final(self).curr_frame == old(self).curr_frame
                &&& final(self).last_frame == old(self).last_frame
                &&& f.commands@ == if old(self).closed {
                    Seq::<Command>::empty()
                } else {
                    teardown_seq(old(self).debug)
                }
                &&& f.kind == match size {
                    Option::None => FatalKind::SizeUnavailable,
                    Option::Some(sz) => (FatalKind::TooSmall {
                        have_cols: sz.0,
                        have_rows: sz.1,
                    }),
                }
            },
    {
        match size {
            Option::None => {
                let commands = self.close();
                Result::Err(Fatal { commands, kind: FatalKind::SizeUnavailable })
            },
            Option::Some((term_cols, term_rows)) => {
                if (term_cols as usize) < self.cols || (term_rows as usize) < self.rows {
                    let commands = self.close();
                    Result::Err(
                        Fatal {
                            commands,
                            kind: FatalKind::TooSmall {
                                have_cols: term_cols,
                                have_rows: term_rows,
                            },
                        },
                    )
                } else {
                    let mut cmds: Vec<Command> = Vec::new();
                    let cols = self.cols;
                    let rows = self.rows;
                    let mut col: usize = 0;
                    while col < cols
                        invariant
                            col <= cols,
                            self.wf(),
                            *self == *old(self),
                            cols == self.cols,
                            rows == self.rows,
                            cmds@ == diff_upto(self.curr_frame, self.last_frame, col as int),
                        decreases cols - col,
                    {
                        let mut row: usize = 0;
                        while row < rows
                            invariant
                                row <= rows,
                                col < cols,
                                self.wf(),
                                *self == *old(self),
                                cols == self.cols,
                                rows == self.rows,
                                cmds@ == diff_upto(self.curr_frame, self.last_frame, col as int)
                                    + diff_col_upto(
                                    self.curr_frame,
                                    self.last_frame,
                                    col as int,
                                    row as int,
                                ),
                            decreases rows - row,
                        {
                            let cur = self.curr_frame.get(col, row);
                            let lst = self.last_frame.get(col, row);
                            if cur != lst {
                                cmds.push(Command::Put { col, row, cell: cur });
                            }
                            proof {
                                assert(cmds@ =~= diff_upto(
                                    self.curr_frame,
                                    self.last_frame,
                                    col as int,
                                ) + diff_col_upto(
                                    self.curr_frame,
                                    self.last_frame,
                                    col as int,
                                    row as int + 1,
                                ));
                            }
                            row += 1;
                        }
                        col += 1;
                    }
                    proof {
                        assert(cmds@ == frame_diff(self.curr_frame, self.last_frame));
                    }
                    core::mem::swap(&mut self.curr_frame, &mut self.last_frame);
                    self.curr_frame.clear();
                    Result::Ok(cmds)
                }
            },
        }
    }

    /// One render cycle against the real terminal: queries the driver for
    /// the terminal's current size and proceeds as
    /// [`render_with_size`](Screen::render_with_size) says for that size.
    /// On `Ok` the commands are the diff of the current frame against the
    /// baseline and the frames have cycled; on `Err` the session has closed
    /// itself and the fatal result carries the restore commands.
    pub fn render(&mut self) -> (r: Result<Vec<Command>, Fatal>)
        requires
            old(self).wf(),
        ensures
            final(self).wf(),
            final(self).cols == old(self).cols,
            final(self).rows == old(self).rows,
            final(self).debug == old(self).debug,
            r matches Ok(cmds) ==> {
                &&& cmds@ == frame_diff(old(self).curr_frame, old(self).last_frame)
                &&& final(self).last_frame == old(self).curr_frame
                &&& final(self).curr_frame.all_blank()
                &&& final(self).closed == old(self).closed
            },
            r matches Err(f) ==> {
                &&& final(self).closed
                &&& final(self).curr_frame == old(self).curr_frame
                &&& final(self).last_frame == old(self).last_frame
                &&& f.commands@ == if old(self).closed {
                    Seq::<Command>::empty()
                } else {
                    teardown_seq(old(self).debug)
                }
            },
    {
        let size = query_size();
        self.render_with_size(size)
    }

    /// Close the session: the first call returns the commands that restore
    /// the terminal; every later call changes nothing and returns no
    /// commands, so issuing whatever this returns leaves the terminal in
    /// the same end state however often it is called.
    pub fn close(&mut self) -> (cmds: Vec<Command>)
        ensures
            final(self).closed,
            final(self).cols == old(self).cols,
            final(self).rows == old(self).rows,
            final(self).debug == old(self).debug,
            final(self).curr_frame == old(self).curr_frame,
            final(self).last_frame == old(self).last_frame,
            old(self).closed ==> *final(self) == *old(self) && cmds@ == Seq::<Command>::empty(),
            !old(self).closed ==> cmds@ == teardown_seq(old(self).debug),
    {
        let mut cmds: Vec<Command> = Vec::new();
        if self.closed {
            return cmds;
        }
        self.closed = true;
        cmds.push(Command::DisableRawMode);
        cmds.push(Command::ShowCursor);
        if !self.debug {
            cmds.push(Command::LeaveAlternateScreen);
        }
        proof {
            assert(cmds@ =~= teardown_seq(self.debug));
        }
        cmds
    }
}

} // verus!
