//! The text field in which the user writes a message: a line of text, a
//! cursor in it, and the measures of the box that shows it.
//!
//! The cursor counts characters, not bytes. It is kept at most at the end
//! of the text by every operation that moves it.

use crate::text::{chars_of, string_of};
use vstd::prelude::*;

verus! {

/// The measures of a box of text.
#[derive(Debug, Clone, Copy, PartialEq, Eq, Structural)]
pub struct BoxData {
    pub max_char_per_line: usize,
    pub max_line: usize,
    pub nb_line: usize,
    pub scroll_offset: usize,
}

/// Whether the field takes the keys that are pressed.
#[derive(Debug, Clone, Copy, PartialEq, Eq, Structural)]
pub enum InputMode {
    Normal,
    Editing,
}

/// The text field: the text, whether it is being edited, the cursor, and
/// the measures of the box that shows the text.
#[derive(Debug, PartialEq, Eq)]
pub struct InputField {
    pub input: String,
    pub input_mode: InputMode,
    /// The cursor: the number of characters before it.
    character_index: usize,
    pub input_data: BoxData,
}

impl BoxData {
    /// A box of one line of one character, with nothing in it.
    pub fn new() -> (r: BoxData)
        ensures
            r == empty_box(),
    {
        BoxData { max_char_per_line: 1, max_line: 1, nb_line: 0, scroll_offset: 0 }
    }

    /// The box scrolled up by one line, where it holds more lines than it
    /// shows and is not at its first line.
    pub open spec fn scrolled_up(self) -> BoxData {
        if self.nb_line > self.max_line && self.scroll_offset > 0 {
            BoxData { scroll_offset: (self.scroll_offset - 1) as usize, ..self }
        } else {
            self
        }
    }

    /// The box scrolled down by one line, where more lines follow the
    /// first line shown than the box shows.
    pub open spec fn scrolled_down(self) -> BoxData {
        if minus(self.nb_line as int, self.scroll_offset as int) > self.max_line {
            BoxData { scroll_offset: (self.scroll_offset + 1) as usize, ..self }
        } else {
            self
        }
    }

    /// Scrolls the box up by one line, if it can.
    pub fn scroll_up(&mut self)
        ensures
            *final(self) == old(self).scrolled_up(),
    {
        if self.nb_line > self.max_line && self.scroll_offset > 0 {
            self.scroll_offset = self.scroll_offset - 1;
        }
    }

    /// Scrolls the box down by one line, if it can.
    pub fn scroll_down(&mut self)
        ensures
            *final(self) == old(self).scrolled_down(),
    {
        if self.nb_line.saturating_sub(self.scroll_offset) > self.max_line {
            self.scroll_offset = self.scroll_offset + 1;
        }
    }
}

/// The smaller of two numbers.
pub open spec fn least(a: int, b: int) -> int {
    if a <= b {
        a
    } else {
        b
    }
}

/// `a - b`, and zero where that is negative.
pub open spec fn minus(a: int, b: int) -> int {
    if a >= b {
        a - b
    } else {
        0
    }
}

/// `a + b`, and `usize::MAX` where that is larger.
pub open spec fn plus(a: int, b: int) -> int {
    least(a + b, usize::MAX as int)
}

/// The lines that `count` characters take at `width` characters a line:
/// the quotient, rounded up. At width zero no text takes no line, and any
/// text takes more lines than can be counted.
pub open spec fn lines_needed(count: int, width: int) -> int {
    if width == 0 {
        if count == 0 {
            0
        } else {
            usize::MAX as int
        }
    } else if count % width == 0 {
        count / width
    } else {
        count / width + 1
    }
}

/// The row of the cursor, counted from one, in lines of `width` characters.
pub open spec fn row_of(cursor: int, width: int) -> int {
    cursor / width + 1
}

/// The mathematical value of an `InputField`.
pub ghost struct InputFieldView {
    pub input: Seq<char>,
    pub input_mode: InputMode,
    /// The cursor: the number of characters before it.
    pub cursor: int,
    pub input_data: BoxData,
}

/// A box of one line of one character, with nothing in it.
pub open spec fn empty_box() -> BoxData {
    BoxData { max_char_per_line: 1, max_line: 1, nb_line: 0, scroll_offset: 0 }
}

impl InputFieldView {
    /// An empty field, not editing, with the cursor at the start.
    pub open spec fn start() -> InputFieldView {
        InputFieldView {
            input: Seq::empty(),
            input_mode: InputMode::Normal,
            cursor: 0,
            input_data: empty_box(),
        }
    }

    /// Whether the text covers more than one line, so that the cursor moves
    /// in two dimensions.
    pub open spec fn wraps(self) -> bool {
        self.input_data.nb_line > 1
    }

    /// The field with the cursor at `cursor`.
    pub open spec fn cursor_at(self, cursor: int) -> InputFieldView {
        InputFieldView { cursor, ..self }
    }

    /// The field with these measures.
    pub open spec fn measured(self, input_data: BoxData) -> InputFieldView {
        InputFieldView { input_data, ..self }
    }

    /// `position`, and the end of the text where that is beyond it.
    pub open spec fn clamped(self, position: int) -> int {
        least(position, self.input.len() as int)
    }

    /// The cursor one character to the left, if there is one.
    pub open spec fn moved_left(self) -> InputFieldView {
        self.cursor_at(self.clamped(minus(self.cursor, 1)))
    }

    /// The cursor one character to the right, if there is one.
    pub open spec fn moved_right(self) -> InputFieldView {
        self.cursor_at(self.clamped(plus(self.cursor, 1)))
    }

    /// The cursor one line up: one line's worth of characters to the left.
    /// Nothing moves while the text takes a single line.
    pub open spec fn moved_up(self) -> InputFieldView {
        if self.wraps() {
            self.cursor_at(
                self.clamped(minus(self.cursor, self.input_data.max_char_per_line as int)),
            )
        } else {
            self
        }
    }

    /// The cursor one line down: one line's worth of characters to the
    /// right, where that is still before the end of the text. Nothing
    /// moves while the text takes a single line.
    pub open spec fn moved_down(self) -> InputFieldView {
        let below = plus(self.cursor, self.input_data.max_char_per_line as int);
        if self.wraps() && below < self.input.len() {
            self.cursor_at(below)
        } else {
            self
        }
    }

    /// `new_char` put into the text at the cursor (at the end, where the
    /// cursor is beyond it), and the cursor one to the right.
    pub open spec fn entered(self, new_char: char) -> InputFieldView {
        InputFieldView {
            input: self.input.insert(self.clamped(self.cursor), new_char),
            cursor: least(plus(self.cursor, 1), self.input.len() as int + 1),
            ..self
        }
    }

    /// The character before the cursor removed, and the cursor one to the
    /// left. Nothing goes with the cursor at the start. A cursor beyond the
    /// end only comes back to the end.
    pub open spec fn deleted(self) -> InputFieldView {
        if 0 < self.cursor <= self.input.len() {
            InputFieldView {
                input: self.input.remove(self.cursor - 1),
                cursor: self.cursor - 1,
                ..self
            }
        } else {
            self.cursor_at(self.clamped(self.cursor))
        }
    }

    /// The cursor at the start, and the text shown from its first line.
    pub open spec fn rewound(self) -> InputFieldView {
        InputFieldView {
            cursor: 0,
            input_data: BoxData { scroll_offset: 0, ..self.input_data },
            ..self
        }
    }

    /// The field after its text was handed over: empty, not editing, and
    /// rewound.
    pub open spec fn emptied(self) -> InputFieldView {
        InputFieldView {
            input: Seq::empty(),
            input_mode: InputMode::Normal,
            ..self.rewound()
        }
    }

    /// The field in the given mode.
    pub open spec fn in_mode(self, input_mode: InputMode) -> InputFieldView {
        InputFieldView { input_mode, ..self }
    }
}

/// The row of the box, counted from one, in which the cursor of `field` is
/// drawn once the box has scrolled to it: row 1 while the text takes a
/// single line; else the cursor's row in the text, at most the last row of
/// the box, and at least 1.
pub open spec fn drawn_row(field: InputFieldView) -> int {
    if field.wraps() {
        let row = row_of(field.cursor, field.input_data.max_char_per_line as int);
        let drawn = least(row, field.input_data.max_line as int);
        if drawn >= 1 {
            drawn
        } else {
            1
        }
    } else {
        1
    }
}

/// The scroll offset of the box once it has scrolled to the cursor of
/// `field`: unchanged while the text takes a single line. Else, where the
/// cursor's row in the text is below the box, the rows by which it is
/// below; but never more than the row in which the cursor is then drawn.
pub open spec fn scroll_for(field: InputFieldView) -> int {
    if field.wraps() {
        let row = row_of(field.cursor, field.input_data.max_char_per_line as int);
        let max_line = field.input_data.max_line as int;
        let scrolled = if row > max_line {
            row - max_line
        } else {
            field.input_data.scroll_offset as int
        };
        least(scrolled, least(row, max_line))
    } else {
        field.input_data.scroll_offset as int
    }
}

/// The column of the box, counted from zero, in which the cursor of
/// `field` is drawn: the cursor itself while the text takes a single line,
/// else its remainder by the width of a line.
pub open spec fn drawn_column(field: InputFieldView) -> int {
    if field.wraps() {
        field.cursor % (field.input_data.max_char_per_line as int)
    } else {
        field.cursor
    }
}

/// Whether the cursor of `field` can be placed: a text that takes several
/// lines has lines of at least one character, and the cursor's row can be
/// counted.
pub open spec fn placeable(field: InputFieldView) -> bool {
    &&& field.wraps() ==> field.input_data.max_char_per_line > 0
    &&& field.cursor < usize::MAX
}

impl View for InputField {
    type V = InputFieldView;

    closed spec fn view(&self) -> InputFieldView {
        InputFieldView {
            input: self.input@,
            input_mode: self.input_mode,
            cursor: self.character_index as int,
            input_data: self.input_data,
        }
    }
}

impl InputField {
    /// An empty field, not editing, with the cursor at the start.
    pub fn new() -> (r: InputField)
        ensures
            r@ == InputFieldView::start(),
    {
        InputField {
            input: String::new(),
            input_mode: InputMode::Normal,
            character_index: 0,
            input_data: BoxData::new(),
        }
    }

    /// Whether the field takes the keys that are pressed.
    pub fn mode(&self) -> (r: InputMode)
        ensures
            r == self@.input_mode,
    {
        self.input_mode
    }

    /// Starts or stops editing.
    pub fn set_mode(&mut self, input_mode: InputMode)
        ensures
            final(self)@ == old(self)@.in_mode(input_mode),
    {
        self.input_mode = input_mode;
    }

    /// The cursor: the number of characters before it.
    pub fn cursor_index(&self) -> (r: usize)
        ensures
            r == self@.cursor,
    {
        self.character_index
    }

    /// Moves the cursor one character to the left, if there is one.
    pub fn move_cursor_left(&mut self)
        ensures
            final(self)@ == old(self)@.moved_left(),
    {
        let cursor_moved_left = self.character_index.saturating_sub(1);
        self.character_index = self.clamp_cursor(cursor_moved_left);
    }

    /// Moves the cursor one character to the right, if there is one.
    pub fn move_cursor_right(&mut self)
        ensures
            final(self)@ == old(self)@.moved_right(),
    {
        let cursor_moved_right = self.character_index.saturating_add(1);
        self.character_index = self.clamp_cursor(cursor_moved_right);
    }

    /// Moves the cursor one line up: one line's worth of characters to the
    /// left. Does nothing while the text takes a single line.
    pub fn move_cursor_up(&mut self)
        ensures
            final(self)@ == old(self)@.moved_up(),
    {
        if self.input_data.nb_line > 1 {
            let cursor_moved_up = self.character_index.saturating_sub(
                self.input_data.max_char_per_line,
            );
            self.character_index = self.clamp_cursor(cursor_moved_up);
        }
    }

    /// Moves the cursor one line down: one line's worth of characters to
    /// the right, where that is still before the end of the text. Does
    /// nothing while the text takes a single line.
    pub fn move_cursor_down(&mut self)
        ensures
            final(self)@ == old(self)@.moved_down(),
    {
        if self.input_data.nb_line > 1 && self.character_index.saturating_add(
            self.input_data.max_char_per_line,
        ) < self.input_len() {
            let cursor_moved_down = self.character_index.saturating_add(
                self.input_data.max_char_per_line,
            );
            self.character_index = self.clamp_cursor(cursor_moved_down);
        }
    }

    /// Puts `new_char` into the text at the cursor (at the end, where the
    /// cursor is beyond it), and moves the cursor one to the right.
    pub fn enter_char(&mut self, new_char: char)
        ensures
            final(self)@ == old(self)@.entered(new_char),
    {
        let mut chars = chars_of(self.input.as_str());
        let at = self.clamp_cursor(self.character_index);
        chars.insert(at, new_char);
        self.input = string_of(&chars);
        self.move_cursor_right();
    }

    /// `new_cursor_pos`, and the end of the text where that is beyond it.
    pub fn clamp_cursor(&self, new_cursor_pos: usize) -> (r: usize)
        ensures
            r == self@.clamped(new_cursor_pos as int),
    {
        let count = self.input.as_str().unicode_len();
        if new_cursor_pos < count {
            new_cursor_pos
        } else {
            count
        }
    }

    /// Puts the cursor at the start and shows the text from its first line.
    pub fn reset_char_index(&mut self)
        ensures
            final(self)@ == old(self)@.rewound(),
    {
        self.character_index = 0;
        self.input_data.scroll_offset = 0;
    }

    /// Removes the character before the cursor and moves the cursor one to
    /// the left. Does nothing with the cursor at the start. With the
    /// cursor beyond the end, only brings it back to the end.
    pub fn delete_char(&mut self)
        ensures
            final(self)@ == old(self)@.deleted(),
    {
        if self.character_index != 0 {
            let chars = chars_of(self.input.as_str());
            let current_index = self.character_index;
            if current_index <= chars.len() {
                let mut kept = chars;
                kept.remove(current_index - 1);
                self.input = string_of(&kept);
            }
            self.move_cursor_left();
        }
    }

    /// Measures the box from the area it is drawn in, whose border takes
    /// two of the width and two of the height: a line holds the characters
    /// of the text up to the inner width, and the box shows the inner
    /// height in lines.
    pub fn update_max(&mut self, area_width: u16, area_height: u16)
        ensures
            final(self)@ == old(self)@.measured(
                BoxData {
                    max_char_per_line: least(
                        old(self)@.input.len() as int,
                        minus(area_width as int, 2),
                    ) as usize,
                    max_line: minus(area_height as int, 2) as usize,
                    ..old(self)@.input_data
                },
            ),
    {
        let available_width: usize = area_width.saturating_sub(2) as usize;
        let count = self.input.as_str().unicode_len();
        self.input_data.max_char_per_line = if count < available_width {
            count
        } else {
            available_width
        };
        self.input_data.max_line = area_height.saturating_sub(2) as usize;
    }

    /// Counts the lines that the text takes in an area of this width, whose
    /// border takes two of it.
    pub fn update_nb_line(&mut self, area_width: u16)
        ensures
            final(self)@ == old(self)@.measured(
                BoxData {
                    nb_line: lines_needed(
                        old(self)@.input.len() as int,
                        minus(area_width as int, 2),
                    ) as usize,
                    ..old(self)@.input_data
                },
            ),
    {
        let available_width: usize = area_width.saturating_sub(2) as usize;
        let count = self.input.as_str().unicode_len();
        self.input_data.nb_line = if available_width == 0 {
            if count == 0 {
                0
            } else {
                usize::MAX
            }
        } else if count % available_width == 0 {
            count / available_width
        } else {
            assert(count / available_width < usize::MAX) by (nonlinear_arith)
                requires
                    available_width >= 2,
                    0 <= count <= usize::MAX,
            ;
            count / available_width + 1
        };
    }

    /// Hands the text over for sending: where the field holds any, the text
    /// leaves the field, which stops editing and puts its cursor and its
    /// scroll offset at the start. An empty field hands nothing over and
    /// stays as it is.
    pub fn submit(&mut self) -> (r: Option<String>)
        ensures
            match r {
                Some(text) => {
                    &&& old(self)@.input.len() > 0
                    &&& text@ == old(self)@.input
                    &&& final(self)@ == old(self)@.emptied()
                },
                None => old(self)@.input.len() == 0 && final(self)@ == old(self)@,
            },
    {
        if self.input_len() > 0 {
            self.input_mode = InputMode::Normal;
            let text = self.input.clone();
            self.input = String::new();
            self.reset_char_index();
            Some(text)
        } else {
            None
        }
    }

    /// The number of characters of the text.
    pub fn input_len(&mut self) -> (r: usize)
        ensures
            *final(self) == *old(self),
            r == old(self)@.input.len(),
    {
        self.input.as_str().unicode_len()
    }

    /// The row of the box in which the cursor is drawn, counted from one;
    /// scrolls the box so that the row is inside it.
    ///
    /// While the text takes a single line the row is 1 and nothing scrolls.
    /// Otherwise the cursor's row in the text is `row_of`. Where that is
    /// below the box, the box scrolls down by the difference, and the
    /// cursor is drawn in the last row of the box. A scroll offset beyond
    /// the row drawn comes back to it. The row returned is never less than
    /// 1.
    pub fn cursor_y(&mut self) -> (r: usize)
        requires
            placeable(old(self)@),
        ensures
            r == drawn_row(old(self)@),
            final(self)@ == old(self)@.measured(
                BoxData {
                    scroll_offset: scroll_for(old(self)@) as usize,
                    ..old(self)@.input_data
                },
            ),
    {
        if self.input_data.nb_line > 1 {
            let mut y: usize = (self.character_index / self.input_data.max_char_per_line) + 1;
            if y > self.input_data.max_line {
                self.input_data.scroll_offset = y - self.input_data.max_line;
                y = y - self.input_data.scroll_offset;
            }
            if y < self.input_data.scroll_offset {
                self.input_data.scroll_offset = y;
            }
            if y >= 1 {
                y
            } else {
                1
            }
        } else {
            1
        }
    }

    /// The column of the box in which the cursor is drawn, counted from
    /// zero: the cursor itself while the text takes a single line, else its
    /// remainder by the width of a line.
    pub fn cursor_x(&mut self) -> (r: usize)
        requires
            old(self)@.wraps() ==> old(self)@.input_data.max_char_per_line > 0,
        ensures
            *final(self) == *old(self),
            r == drawn_column(old(self)@),
    {
        if self.input_data.nb_line > 1 {
            self.character_index % self.input_data.max_char_per_line
        } else {
            self.character_index
        }
    }

    /// The cell of the box in which the cursor is drawn, column first;
    /// scrolls the box so that the cell is inside it. Returns `None`, and
    /// leaves the field as it is, exactly where the cursor cannot be
    /// placed.
    pub fn cursor_cell(&mut self) -> (r: Option<(usize, usize)>)
        ensures
            match r {
                Some(cell) => {
                    &&& placeable(old(self)@)
                    &&& cell.0 == drawn_column(old(self)@)
                    &&& cell.1 == drawn_row(old(self)@)
                    &&& final(self)@ == old(self)@.measured(
                        BoxData {
                            scroll_offset: scroll_for(old(self)@) as usize,
                            ..old(self)@.input_data
                        },
                    )
                },
                None => !placeable(old(self)@) && final(self)@ == old(self)@,
            },
    {
        if self.input_data.nb_line > 1 && self.input_data.max_char_per_line == 0 {
            return None;
        }
        if self.character_index == usize::MAX {
            return None;
        }
        let y = self.cursor_y();
        let x = self.cursor_x();
        Some((x, y))
    }
}

} // verus!
