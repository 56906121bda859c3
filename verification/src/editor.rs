//! The editor state machine: a document of text lines, a cursor, and a
//! mode, mutated by a fixed vocabulary of key events.

use vstd::prelude::*;

verus! {

/// The two interaction modes. In `Navigation` keystrokes move the cursor
/// or change mode; in `Insertion` they mutate the text.
#[derive(Clone, Copy, PartialEq, Eq, Structural, Debug)]
pub enum Mode {
    Navigation,
    Insertion,
}

/// A decoded key event, already stripped of terminal details.
#[derive(Clone, Copy, PartialEq, Eq, Structural, Debug)]
pub enum Key {
    Char(char),
    Backspace,
    Enter,
    Esc,
    Left,
    Right,
    Up,
    Down,
    Other,
}

/// What the control loop should do after dispatching a key: keep
/// running, or tear the terminal down and stop.
#[derive(Clone, Copy, PartialEq, Eq, Structural, Debug)]
pub enum Outcome {
    Continue,
    Quit,
}

/// The mathematical model of an editor state: the document as a
/// sequence of character sequences, the cursor, and the mode.
#[verifier::ext_equal]
pub struct EditorModel {
    pub lines: Seq<Seq<char>>,
    pub col: nat,
    pub row: nat,
    pub mode: Mode,
}

impl EditorModel {
    /// The state invariant: the document has at least one line, the
    /// cursor row addresses an existing line, and the cursor column is
    /// at most that line's length (it may equal it, the end-of-line
    /// insertion point).
    pub open spec fn inv(self) -> bool {
        &&& self.lines.len() >= 1
        &&& self.row < self.lines.len()
        &&& self.col <= self.lines[self.row as int].len()
    }

    /// The state a fresh editor starts in: one empty line, cursor at
    /// the origin, `Navigation` mode.
    pub open spec fn initial() -> EditorModel {
        EditorModel {
            lines: seq![Seq::<char>::empty()],
            col: 0,
            row: 0,
            mode: Mode::Navigation,
        }
    }

    /// Switching to `Insertion` mode; everything else is untouched.
    pub open spec fn to_insertion(self) -> EditorModel {
        EditorModel { mode: Mode::Insertion, ..self }
    }

    /// Switching back to `Navigation` mode; everything else is untouched.
    pub open spec fn to_navigation(self) -> EditorModel {
        EditorModel { mode: Mode::Navigation, ..self }
    }

    /// Inserting character `c` at the cursor: it lands at `col` in the
    /// current line and the cursor advances one column. A state whose
    /// row is out of range (unreachable under the invariant) is left
    /// unchanged.
    pub open spec fn insert_char(self, c: char) -> EditorModel {
        if self.row < self.lines.len() {
            EditorModel {
                lines: self.lines.update(
                    self.row as int,
                    self.lines[self.row as int].insert(self.col as int, c),
                ),
                col: self.col + 1,
                ..self
            }
        } else {
            self
        }
    }

    /// Backspace at the cursor. Inside a line it deletes the character
    /// before the cursor. At column 0 of a later line it merges the
    /// current line onto the end of the previous one, the cursor
    /// landing at the seam. At (0, 0) it does nothing.
    pub open spec fn backspace(self) -> EditorModel {
        if self.row < self.lines.len() {
            if self.col > 0 {
                EditorModel {
                    lines: self.lines.update(
                        self.row as int,
                        self.lines[self.row as int].remove(self.col - 1),
                    ),
                    col: (self.col - 1) as nat,
                    ..self
                }
            } else if self.row > 0 {
                EditorModel {
                    lines: self.lines.remove(self.row as int).update(
                        self.row - 1,
                        self.lines[self.row - 1] + self.lines[self.row as int],
                    ),
                    col: self.lines[self.row - 1].len(),
                    row: (self.row - 1) as nat,
                    ..self
                }
            } else {
                self
            }
        } else {
            self
        }
    }

    /// Splitting the current line at the cursor: the prefix stays at
    /// `row`, the suffix becomes a new line right after it, and the
    /// cursor moves to the start of that new line.
    pub open spec fn insert_newline(self) -> EditorModel {
        if self.row < self.lines.len() {
            EditorModel {
                lines: self.lines.update(
                    self.row as int,
                    self.lines[self.row as int].take(self.col as int),
                ).insert(self.row as int + 1, self.lines[self.row as int].skip(self.col as int)),
                col: 0,
                row: self.row + 1,
                ..self
            }
        } else {
            self
        }
    }

    /// Moving left: back one column, or, from column 0 of a later
    /// line, to the end of the previous line. A no-op at (0, 0).
    pub open spec fn move_left(self) -> EditorModel {
        if self.col > 0 {
            EditorModel { col: (self.col - 1) as nat, ..self }
        } else if self.row > 0 {
            EditorModel { col: self.lines[self.row - 1].len(), row: (self.row - 1) as nat, ..self }
        } else {
            self
        }
    }

    /// Moving right: forward one column, or, from the end of a line
    /// that is not the last, to the start of the next line. A no-op at
    /// the last line's end.
    pub open spec fn move_right(self) -> EditorModel {
        if self.row < self.lines.len() {
            if self.col < self.lines[self.row as int].len() {
                EditorModel { col: self.col + 1, ..self }
            } else if self.row + 1 < self.lines.len() {
                EditorModel { col: 0, row: self.row + 1, ..self }
            } else {
                self
            }
        } else {
            self
        }
    }

    /// Moving up one line, the column clamped to the new line's
    /// length. A no-op on the first line.
    pub open spec fn move_up(self) -> EditorModel {
        if self.row > 0 {
            EditorModel {
                col: if self.col <= self.lines[self.row - 1].len() {
                    self.col
                } else {
                    self.lines[self.row - 1].len()
                },
                row: (self.row - 1) as nat,
                ..self
            }
        } else {
            self
        }
    }

    /// Moving down one line, the column clamped to the new line's
    /// length. A no-op on the last line.
    pub open spec fn move_down(self) -> EditorModel {
        if self.row + 1 < self.lines.len() {
            EditorModel {
                col: if self.col <= self.lines[self.row as int + 1].len() {
                    self.col
                } else {
                    self.lines[self.row as int + 1].len()
                },
                row: self.row + 1,
                ..self
            }
        } else {
            self
        }
    }

    /// How one key event transforms the state, the mapping keyed on
    /// the current mode. The arrow keys move the cursor in either
    /// mode; text is mutated only in `Insertion` mode. Unrecognized
    /// keys leave the state unchanged, and so does the quit key:
    /// quitting is reported through `step_outcome`, not a state
    /// change.
    pub open spec fn step(self, k: Key) -> EditorModel {
        match self.mode {
            Mode::Navigation => match k {
                Key::Char(c) => if c == 'i' {
                    self.to_insertion()
                } else {
                    self
                },
                Key::Left => self.move_left(),
                Key::Right => self.move_right(),
                Key::Up => self.move_up(),
                Key::Down => self.move_down(),
                _ => self,
            },
            Mode::Insertion => match k {
                Key::Esc => self.to_navigation(),
                Key::Char(c) => self.insert_char(c),
                Key::Backspace => self.backspace(),
                Key::Enter => self.insert_newline(),
                Key::Left => self.move_left(),
                Key::Right => self.move_right(),
                Key::Up => self.move_up(),
                Key::Down => self.move_down(),
                _ => self,
            },
        }
    }

    /// Whether a key event asks the control loop to stop: only the
    /// quit key, and only from `Navigation` mode.
    pub open spec fn step_outcome(self, k: Key) -> Outcome {
        if self.mode == Mode::Navigation && k == Key::Char('q') {
            Outcome::Quit
        } else {
            Outcome::Continue
        }
    }
}

/// The editor state: cursor position (in character units), document
/// line buffer, and current mode.
pub struct Editor {
    pub cursor_x: usize,
    pub cursor_y: usize,
    pub buffer: Vec<Vec<char>>,
    pub mode: Mode,
}

impl View for Editor {
    type V = EditorModel;

    open spec fn view(&self) -> EditorModel {
        EditorModel {
            lines: self.buffer@.map_values(|l: Vec<char>| l@),
            col: self.cursor_x as nat,
            row: self.cursor_y as nat,
            mode: self.mode,
        }
    }
}

impl Editor {
    /// The concrete state satisfies the abstract invariant.
    pub open spec fn wf(self) -> bool {
        self@.inv()
    }

    /// A fresh editor: a single empty line, cursor at (0, 0),
    /// `Navigation` mode.
    pub fn new() -> (e: Editor)
        ensures
            e@ == EditorModel::initial(),
            e.wf(),
    {
        let mut buffer: Vec<Vec<char>> = Vec::new();
        buffer.push(Vec::new());
        let e = Editor { cursor_x: 0, cursor_y: 0, buffer, mode: Mode::Navigation };
        proof {
            assert(e@.lines =~= EditorModel::initial().lines);
        }
        e
    }

    /// Insert `c` at the cursor and advance one column.
    pub fn insert_char(&mut self, c: char)
        requires
            old(self).wf(),
        ensures
            final(self)@ == old(self)@.insert_char(c),
            final(self).wf(),
    {
        if self.cursor_y < self.buffer.len() {
            let line = &mut self.buffer[self.cursor_y];
            line.insert(self.cursor_x, c);
            let n: usize = line.len();
            proof {
                assert(self.cursor_x < n);
            }
            self.cursor_x = self.cursor_x + 1;
        }
        proof {
            assert(self@.lines =~= old(self)@.insert_char(c).lines);
        }
    }

    /// Delete the character before the cursor, or merge the current
    /// line onto the previous one when the cursor is at column 0.
    pub fn backspace(&mut self)
        requires
            old(self).wf(),
        ensures
            final(self)@ == old(self)@.backspace(),
            final(self).wf(),
    {
        if self.cursor_y < self.buffer.len() {
            if self.cursor_x > 0 {
                let line = &mut self.buffer[self.cursor_y];
                line.remove(self.cursor_x - 1);
                self.cursor_x = self.cursor_x - 1;
            } else if self.cursor_y > 0 {
                let mut current = self.buffer.remove(self.cursor_y);
                self.cursor_y = self.cursor_y - 1;
                let prev = &mut self.buffer[self.cursor_y];
                let prev_len: usize = prev.len();
                prev.append(&mut current);
                self.cursor_x = prev_len;
            }
        }
        proof {
            assert(self@.lines =~= old(self)@.backspace().lines);
        }
    }

    /// Split the current line at the cursor; the suffix becomes a new
    /// line just below and the cursor moves to its start.
    pub fn insert_newline(&mut self)
        requires
            old(self).wf(),
        ensures
            final(self)@ == old(self)@.insert_newline(),
            final(self).wf(),
    {
        if self.cursor_y < self.buffer.len() {
            let line = &mut self.buffer[self.cursor_y];
            let tail = line.split_off(self.cursor_x);
            self.buffer.insert(self.cursor_y + 1, tail);
            self.cursor_y = self.cursor_y + 1;
            self.cursor_x = 0;
        }
        proof {
            assert(self@.lines =~= old(self)@.insert_newline().lines);
        }
    }

    /// Move the cursor one column left, wrapping to the end of the
    /// previous line from column 0.
    pub fn move_left(&mut self)
        requires
            old(self).wf(),
        ensures
            final(self)@ == old(self)@.move_left(),
            final(self).wf(),
    {
        if self.cursor_x > 0 {
            self.cursor_x = self.cursor_x - 1;
        } else if self.cursor_y > 0 {
            self.cursor_y = self.cursor_y - 1;
            self.cursor_x = self.buffer[self.cursor_y].len();
        }
    }

    /// Move the cursor one column right, wrapping to the start of the
    /// next line from a line's end.
    pub fn move_right(&mut self)
        requires
            old(self).wf(),
        ensures
            final(self)@ == old(self)@.move_right(),
            final(self).wf(),
    {
        let line_count: usize = self.buffer.len();
        if self.cursor_x < self.buffer[self.cursor_y].len() {
            self.cursor_x = self.cursor_x + 1;
        } else if self.cursor_y + 1 < line_count {
            self.cursor_y = self.cursor_y + 1;
            self.cursor_x = 0;
        }
    }

    /// Move the cursor up one line, clamping the column to the new
    /// line's length.
    pub fn move_up(&mut self)
        requires
            old(self).wf(),
        ensures
            final(self)@ == old(self)@.move_up(),
            final(self).wf(),
    {
        if self.cursor_y > 0 {
            self.cursor_y = self.cursor_y - 1;
            let len: usize = self.buffer[self.cursor_y].len();
            if self.cursor_x > len {
                self.cursor_x = len;
            }
        }
    }

    /// Move the cursor down one line, clamping the column to the new
    /// line's length.
    pub fn move_down(&mut self)
        requires
            old(self).wf(),
        ensures
            final(self)@ == old(self)@.move_down(),
            final(self).wf(),
    {
        let line_count: usize = self.buffer.len();
        if self.cursor_y + 1 < line_count {
            self.cursor_y = self.cursor_y + 1;
            let len: usize = self.buffer[self.cursor_y].len();
            if self.cursor_x > len {
                self.cursor_x = len;
            }
        }
    }

    /// Dispatch one key event according to the current mode, and
    /// report whether the control loop should keep running or quit.
    pub fn handle_key(&mut self, k: Key) -> (r: Outcome)
        requires
            old(self).wf(),
        ensures
            final(self)@ == old(self)@.step(k),
            r == old(self)@.step_outcome(k),
            final(self).wf(),
    {
        match self.mode {
            Mode::Navigation => {
                match k {
                    Key::Char(c) => {
                        if c == 'i' {
                            self.mode = Mode::Insertion;
                            Outcome::Continue
                        } else if c == 'q' {
                            Outcome::Quit
                        } else {
                            Outcome::Continue
                        }
                    },
                    Key::Left => {
                        self.move_left();
                        Outcome::Continue
                    },
                    Key::Right => {
                        self.move_right();
                        Outcome::Continue
                    },
                    Key::Up => {
                        self.move_up();
                        Outcome::Continue
                    },
                    Key::Down => {
                        self.move_down();
                        Outcome::Continue
                    },
                    _ => Outcome::Continue,
                }
            },
            Mode::Insertion => {
                match k {
                    Key::Esc => self.mode = Mode::Navigation,
                    Key::Char(c) => self.insert_char(c),
                    Key::Backspace => self.backspace(),
                    Key::Enter => self.insert_newline(),
                    Key::Left => self.move_left(),
                    Key::Right => self.move_right(),
                    Key::Up => self.move_up(),
                    Key::Down => self.move_down(),
                    _ => {},
                }
                Outcome::Continue
            },
        }
    }

    /// Check the state invariant at run time: a defensive test for
    /// callers that cannot carry the proof.
    pub fn is_well_formed(&self) -> (b: bool)
        ensures
            b == self.wf(),
    {
        self.cursor_y < self.buffer.len() && self.cursor_x <= self.buffer[self.cursor_y].len()
    }
}

/// The start state satisfies the invariant.
pub proof fn lemma_initial_satisfies_inv()
    ensures
        EditorModel::initial().inv(),
{
}

/// Every key event preserves the invariant, so every state reachable
/// from the start state keeps at least one line, a valid cursor row,
/// and a cursor column within the current line.
pub proof fn lemma_step_preserves_inv(m: EditorModel, k: Key)
    requires
        m.inv(),
    ensures
        m.step(k).inv(),
{
}

/// Switching to `Insertion` mode twice in a row is the same as doing
/// it once.
pub proof fn lemma_to_insertion_idempotent(m: EditorModel)
    ensures
        m.to_insertion().to_insertion() == m.to_insertion(),
{
}

/// Switching to `Navigation` mode twice in a row is the same as doing
/// it once.
pub proof fn lemma_to_navigation_idempotent(m: EditorModel)
    ensures
        m.to_navigation().to_navigation() == m.to_navigation(),
{
}

/// Splitting a line with a newline and immediately backspacing at the
/// start of the new line restores the original document and cursor.
pub proof fn lemma_newline_backspace_round_trip(m: EditorModel)
    requires
        m.inv(),
    ensures
        m.insert_newline().backspace() == m,
{
    let r: int = m.row as int;
    let c: int = m.col as int;
    let m1 = m.insert_newline();
    let m2 = m1.backspace();
    assert(m1.lines.remove(r + 1) =~= m.lines.update(r, m.lines[r].take(c)));
    assert(m.lines[r].take(c) + m.lines[r].skip(c) =~= m.lines[r]);
    assert(m2.lines =~= m.lines);
}

/// Move-left at the very start of the document does nothing.
pub proof fn lemma_move_left_at_origin(m: EditorModel)
    requires
        m.row == 0,
        m.col == 0,
    ensures
        m.move_left() == m,
{
}

/// Move-right at the last line's last column does nothing.
pub proof fn lemma_move_right_at_document_end(m: EditorModel)
    requires
        m.inv(),
        m.row + 1 == m.lines.len(),
        m.col == m.lines[m.row as int].len(),
    ensures
        m.move_right() == m,
{
}

/// Backspace at the very start of the document does nothing.
pub proof fn lemma_backspace_at_origin(m: EditorModel)
    requires
        m.row == 0,
        m.col == 0,
    ensures
        m.backspace() == m,
{
}

} // verus!
