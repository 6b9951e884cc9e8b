use tui_textarea::{CursorMove, Input, Key, TextArea};
use vstd::prelude::*;

verus! {

/// The query buffer: a `TextArea`, which is read and edited through the
/// functions of this file only. What it holds is known by `buffer_lines`,
/// `buffer_cursor` and `buffer_anchor`.
#[verifier::external_body]
pub struct Buffer {
    area: TextArea<'static>,
}

#[verifier::external_type_specification]
#[verifier::external_body]
pub struct ExKey(tui_textarea::Key);

/// The lines that a text area holds.
pub uninterp spec fn buffer_lines(buffer: Buffer) -> Seq<Seq<char>>;

/// The row and the column of the cursor, each counted from 0, the column in
/// characters.
pub uninterp spec fn buffer_cursor(buffer: Buffer) -> (nat, nat);

/// The row and the column at which the selection was begun, `None` while
/// nothing is being selected.
pub uninterp spec fn buffer_anchor(buffer: Buffer) -> Option<(nat, nat)>;

/// A move of the cursor.
#[derive(Debug, Clone, Copy, PartialEq, Eq, Structural)]
pub enum Motion {
    Back,
    Forward,
    Head,
    End,
    WordForward,
    WordBack,
    WordEnd,
}

/// The keys that move the cursor or the view.
#[derive(Debug, Clone, Copy, PartialEq, Eq, Structural)]
pub enum ArrowKey {
    Left,
    Right,
    Up,
    Down,
    Home,
    End,
    PageUp,
    PageDown,
}

/// The keys that edit, and the key that stands for none.
#[derive(Debug, Clone, Copy, PartialEq, Eq, Structural)]
pub enum EditKey {
    Backspace,
    Delete,
    Tab,
    Enter,
    Esc,
    Null,
}

/// What can be done to the buffer.
pub enum BufferOp {
    Move(Motion),
    DeleteNext,
    DeletePrevious,
    DeleteToEnd,
    DeleteToHead,
    StartSelection,
    CancelSelection,
    Cut,
    Insert(Seq<char>),
    Undo,
    Redo,
}

/// A buffer of one line: its text, the column of the cursor, and the column
/// at which the selection began.
pub struct LineState {
    pub text: Seq<char>,
    pub col: nat,
    pub anchor: Option<nat>,
}

impl LineState {
    /// The columns between which text is selected, `None` where nothing is.
    pub open spec fn selection(self) -> Option<(nat, nat)> {
        match self.anchor {
            Some(a) => if a < self.col {
                Some((a, self.col))
            } else if self.col < a {
                Some((self.col, a))
            } else {
                None
            },
            None => None,
        }
    }

    /// The line without the columns from `from` up to `to`, the cursor at
    /// `from`, nothing selected.
    pub open spec fn without(self, from: nat, to: nat) -> LineState {
        LineState {
            text: self.text.take(from as int) + self.text.skip(to as int),
            col: from,
            anchor: None,
        }
    }

    /// The same line with nothing selected.
    pub open spec fn unselected(self) -> LineState {
        LineState { anchor: None, ..self }
    }

    /// The line after an operation whose outcome the text, the cursor and the
    /// selection determine. Every deletion takes the selected text where some
    /// is selected, and its own range where none is.
    pub open spec fn after(self, op: BufferOp) -> LineState {
        match op {
            BufferOp::StartSelection => LineState { anchor: Some(self.col), ..self },
            BufferOp::CancelSelection => self.unselected(),
            BufferOp::Cut => match self.selection() {
                Some((from, to)) => self.without(from, to),
                None => self.unselected(),
            },
            BufferOp::DeleteToEnd => match self.selection() {
                Some((from, to)) => self.without(from, to),
                None => self.without(self.col, self.text.len()),
            },
            BufferOp::DeleteToHead => match self.selection() {
                Some((from, to)) => self.without(from, to),
                None => self.without(0, self.col),
            },
            BufferOp::DeleteNext => match self.selection() {
                Some((from, to)) => self.without(from, to),
                None => if self.col < self.text.len() {
                    self.without(self.col, self.col + 1)
                } else {
                    self.unselected()
                },
            },
            BufferOp::DeletePrevious => match self.selection() {
                Some((from, to)) => self.without(from, to),
                None => if self.col > 0 {
                    self.without((self.col - 1) as nat, self.col)
                } else {
                    self.unselected()
                },
            },
            BufferOp::Insert(text) => {
                let base = match self.selection() {
                    Some((from, to)) => self.without(from, to),
                    None => self.unselected(),
                };
                LineState {
                    text: base.text.take(base.col as int) + text + base.text.skip(base.col as int),
                    col: base.col + text.len(),
                    anchor: None,
                }
            },
            BufferOp::Move(Motion::Head) => LineState { col: 0, ..self },
            BufferOp::Move(Motion::End) => LineState { col: self.text.len(), ..self },
            BufferOp::Move(Motion::Back) => LineState {
                col: if self.col > 0 {
                    (self.col - 1) as nat
                } else {
                    0
                },
                ..self
            },
            BufferOp::Move(Motion::Forward) => LineState {
                col: if self.col < self.text.len() {
                    self.col + 1
                } else {
                    self.col
                },
                ..self
            },
            _ => self,
        }
    }

    /// Whether `next` can follow on `op`. A move by a word leaves text and
    /// selection as they are and puts the cursor somewhere in the line, not
    /// before its place for a move forward, not behind it for a move back.
    /// Of undoing and redoing nothing is said.
    pub open spec fn steps_to(self, op: BufferOp, next: LineState) -> bool {
        match op {
            BufferOp::Undo | BufferOp::Redo => true,
            BufferOp::Move(Motion::WordForward) | BufferOp::Move(Motion::WordEnd) => {
                &&& next == LineState { col: next.col, ..self }
                &&& self.col <= next.col <= self.text.len()
            },
            BufferOp::Move(Motion::WordBack) => {
                &&& next == LineState { col: next.col, ..self }
                &&& next.col <= self.col
            },
            _ => next == self.after(op),
        }
    }
}

/// Whether `text` can be inserted as one piece: it holds no line feed and
/// does not end in a carriage return.
pub open spec fn is_one_piece(text: Seq<char>) -> bool {
    &&& forall|i: int| 0 <= i < text.len() ==> text[i] != '\n'
    &&& text.len() > 0 ==> text.last() != '\r'
}

/// The text area as one line: `None` where it holds more lines than one, or
/// where cursor or anchor lie outside its line.
pub open spec fn line_state(area: Buffer) -> Option<LineState> {
    let lines = buffer_lines(area);
    let (row, col) = buffer_cursor(area);
    let anchor = buffer_anchor(area);
    if lines.len() == 1 && row == 0 && col <= lines[0].len() && (anchor matches Some(a) ==> a.0 == 0
        && a.1 <= lines[0].len()) {
        Some(
            LineState {
                text: lines[0],
                col,
                anchor: match anchor {
                    Some(a) => Some(a.1),
                    None => None,
                },
            },
        )
    } else {
        None
    }
}

/// Whether the operation leaves the text alone whatever the buffer holds.
pub open spec fn keeps_text(op: BufferOp) -> bool {
    op is Move || op is StartSelection || op is CancelSelection
}

/// Whether `after` can be the text area that `op` makes of `before`: a buffer
/// of one line goes to a buffer of one line as `steps_to` says (undoing and
/// redoing left aside), and moves and selecting keep the lines of any buffer.
pub open spec fn applied(before: Buffer, op: BufferOp, after: Buffer) -> bool {
    &&& keeps_text(op) ==> buffer_lines(after) == buffer_lines(before)
    &&& match line_state(before) {
        Some(s) => is_stated(op) ==> (line_state(after) matches Some(t) && s.steps_to(op, t)),
        None => true,
    }
}

/// Whether the outcome of the operation on a buffer of one line is stated:
/// not that of undoing and redoing, nor that of inserting a text of several
/// pieces.
pub open spec fn is_stated(op: BufferOp) -> bool {
    match op {
        BufferOp::Undo | BufferOp::Redo => false,
        BufferOp::Insert(text) => is_one_piece(text),
        _ => true,
    }
}

/// `TextArea::default`: one empty line, the cursor at its head, nothing
/// selected.
#[verifier::external_body]
pub(crate) fn new_buffer() -> (area: Buffer)
    ensures
        buffer_lines(area) == seq![Seq::<char>::empty()],
        buffer_cursor(area) == (0nat, 0nat),
        buffer_anchor(area) is None,
{
    Buffer { area: TextArea::default() }
}

/// `TextArea::lines`, copied: the lines of the buffer, in order.
#[verifier::external_body]
pub(crate) fn buffer_text(area: &Buffer) -> (lines: Vec<String>)
    ensures
        lines@.len() == buffer_lines(*area).len(),
        forall|i: int| 0 <= i < lines@.len() ==> (#[trigger] lines@[i])@ == buffer_lines(*area)[i],
{
    area.area.lines().to_vec()
}

/// `TextArea::cursor`: the row and the column of the cursor.
#[verifier::external_body]
pub(crate) fn buffer_position(area: &Buffer) -> (cursor: (usize, usize))
    ensures
        (cursor.0 as nat, cursor.1 as nat) == buffer_cursor(*area),
{
    area.area.cursor()
}

/// `TextArea::move_cursor` with the `CursorMove` of the same name. The lines
/// stay as they are. In a buffer of one line the selection stays too; a move
/// by a character or to an end of the line puts the cursor where
/// `LineState::after` says, a move by a word somewhere in the line, in the
/// direction of the move.
#[verifier::external_body]
pub(crate) fn move_cursor(area: &mut Buffer, motion: Motion)
    ensures
        applied(*old(area), BufferOp::Move(motion), *final(area)),
{
    area.area.move_cursor(
        match motion {
            Motion::Back => CursorMove::Back,
            Motion::Forward => CursorMove::Forward,
            Motion::Head => CursorMove::Head,
            Motion::End => CursorMove::End,
            Motion::WordForward => CursorMove::WordForward,
            Motion::WordBack => CursorMove::WordBack,
            Motion::WordEnd => CursorMove::WordEnd,
        },
    )
}

/// `TextArea::delete_next_char`. In a buffer of one line it takes out what is
/// selected, or else the character under the cursor, and gives the selection
/// up.
#[verifier::external_body]
pub(crate) fn delete_next_char(area: &mut Buffer)
    ensures
        applied(*old(area), BufferOp::DeleteNext, *final(area)),
{
    area.area.delete_next_char();
}

/// `TextArea::delete_char`. In a buffer of one line it takes out what is
/// selected, or else the character before the cursor, and gives the
/// selection up.
#[verifier::external_body]
pub(crate) fn delete_char(area: &mut Buffer)
    ensures
        applied(*old(area), BufferOp::DeletePrevious, *final(area)),
{
    area.area.delete_char();
}

/// `TextArea::delete_line_by_end`. In a buffer of one line it takes out what
/// is selected, or else all from the cursor on, and gives the selection up.
#[verifier::external_body]
pub(crate) fn delete_line_by_end(area: &mut Buffer)
    ensures
        applied(*old(area), BufferOp::DeleteToEnd, *final(area)),
{
    area.area.delete_line_by_end();
}

/// `TextArea::delete_line_by_head`. In a buffer of one line it takes out what
/// is selected, or else all before the cursor, and gives the selection up.
#[verifier::external_body]
pub(crate) fn delete_line_by_head(area: &mut Buffer)
    ensures
        applied(*old(area), BufferOp::DeleteToHead, *final(area)),
{
    area.area.delete_line_by_head();
}

/// `TextArea::start_selection`: the selection begins at the cursor; lines
/// and cursor stay.
#[verifier::external_body]
pub(crate) fn start_selection(area: &mut Buffer)
    ensures
        applied(*old(area), BufferOp::StartSelection, *final(area)),
{
    area.area.start_selection();
}

/// `TextArea::cancel_selection`: nothing is selected any more; lines and
/// cursor stay.
#[verifier::external_body]
pub(crate) fn cancel_selection(area: &mut Buffer)
    ensures
        applied(*old(area), BufferOp::CancelSelection, *final(area)),
        buffer_cursor(*final(area)) == buffer_cursor(*old(area)),
{
    area.area.cancel_selection();
}

/// `TextArea::cut`. In a buffer of one line it takes out what is selected
/// and puts the cursor where that began; with nothing selected the text
/// stays. The selection is given up.
#[verifier::external_body]
pub(crate) fn cut(area: &mut Buffer)
    ensures
        applied(*old(area), BufferOp::Cut, *final(area)),
{
    area.area.cut();
}

/// `TextArea::insert_str`. In a buffer of one line a text of one piece goes
/// in at the cursor, in the place of what is selected, and the cursor comes
/// to stand behind it. Of a text with a line feed in it, or a carriage
/// return at its end, nothing is stated.
#[verifier::external_body]
pub(crate) fn insert_str(area: &mut Buffer, text: &str)
    ensures
        applied(*old(area), BufferOp::Insert(text@), *final(area)),
{
    area.area.insert_str(text);
}

/// `TextArea::undo`: tells whether a change was taken back. Where none was,
/// the text area is as it was; where one was, nothing is selected any more.
/// What is restored depends on the history, of which nothing is stated.
#[verifier::external_body]
pub(crate) fn undo(area: &mut Buffer) -> (restored: bool)
    ensures
        !restored ==> *final(area) == *old(area),
        restored ==> buffer_anchor(*final(area)) is None,
{
    area.area.undo()
}

/// `TextArea::redo`: what it restores depends on the history, of which
/// nothing is stated.
#[verifier::external_body]
pub(crate) fn redo(area: &mut Buffer) {
    area.area.redo();
}

/// What a key of the text area stands for.
pub enum KeyView {
    /// A character.
    Char(char),
    /// A key that moves the cursor or the view.
    Arrow(ArrowKey),
    /// A key that edits, or the key that stands for none.
    Edit(EditKey),
}

/// What `key` stands for.
pub uninterp spec fn key_view(key: Key) -> KeyView;

/// The `Key` of a character, `Key::Char`.
#[verifier::external_body]
pub(crate) fn char_key(c: char) -> (key: Key)
    ensures
        key_view(key) == KeyView::Char(c),
{
    Key::Char(c)
}

/// The `Key` that has the name of `key`.
#[verifier::external_body]
pub(crate) fn arrow_key(key: ArrowKey) -> (r: Key)
    ensures
        key_view(r) == KeyView::Arrow(key),
{
    match key {
        ArrowKey::Left => Key::Left,
        ArrowKey::Right => Key::Right,
        ArrowKey::Up => Key::Up,
        ArrowKey::Down => Key::Down,
        ArrowKey::Home => Key::Home,
        ArrowKey::End => Key::End,
        ArrowKey::PageUp => Key::PageUp,
        ArrowKey::PageDown => Key::PageDown,
    }
}

/// The `Key` that has the name of `key`.
#[verifier::external_body]
pub(crate) fn edit_key(key: EditKey) -> (r: Key)
    ensures
        key_view(r) == KeyView::Edit(key),
{
    match key {
        EditKey::Backspace => Key::Backspace,
        EditKey::Delete => Key::Delete,
        EditKey::Tab => Key::Tab,
        EditKey::Enter => Key::Enter,
        EditKey::Esc => Key::Esc,
        EditKey::Null => Key::Null,
    }
}

/// `TextArea::input` with an `Input` of the given key and modifiers: tells
/// whether the text was changed. What the key does depends on the text
/// area's own key map, of which nothing is stated.
#[verifier::external_body]
pub(crate) fn input(area: &mut Buffer, key: Key, ctrl: bool, alt: bool, shift: bool) -> (changed:
    bool) {
    area.area.input(Input { key, ctrl, alt, shift })
}

impl Buffer {
    /// The lines of the buffer.
    pub fn lines(&self) -> (lines: Vec<String>)
        ensures
            lines@.len() == buffer_lines(*self).len(),
            forall|i: int|
                0 <= i < lines@.len() ==> (#[trigger] lines@[i])@ == buffer_lines(*self)[i],
    {
        buffer_text(self)
    }

    /// The row and the column of the cursor.
    pub fn cursor(&self) -> (cursor: (usize, usize))
        ensures
            (cursor.0 as nat, cursor.1 as nat) == buffer_cursor(*self),
    {
        buffer_position(self)
    }

    /// Moves the cursor.
    pub fn move_cursor(&mut self, motion: Motion)
        ensures
            applied(*old(self), BufferOp::Move(motion), *final(self)),
    {
        move_cursor(self, motion)
    }

    /// Puts `text` in at the cursor, in the place of what is selected.
    pub fn insert_str(&mut self, text: &str)
        ensures
            applied(*old(self), BufferOp::Insert(text@), *final(self)),
    {
        insert_str(self, text)
    }

    /// Takes the last change back and tells whether there was one. Where
    /// there was none the buffer is as it was; where there was one, nothing
    /// is selected any more.
    pub fn undo(&mut self) -> (restored: bool)
        ensures
            !restored ==> *final(self) == *old(self),
            restored ==> buffer_anchor(*final(self)) is None,
    {
        undo(self)
    }
}

} // verus!
