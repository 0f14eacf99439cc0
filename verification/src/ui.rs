//! What the keys do: the screen's state, the text field and the box of
//! messages, and the decision that each key stands for.
//!
//! Nothing is drawn and no key is read here. The caller hands over the
//! keys as they are pressed, and carries out what a key asks of it.

use crate::inputfield::{empty_box, BoxData, InputField, InputFieldView, InputMode};
use vstd::prelude::*;

verus! {

/// A key of the keyboard.
#[derive(Debug, Clone, Copy, PartialEq, Eq, Structural)]
pub enum Key {
    Char(char),
    Enter,
    Backspace,
    Left,
    Right,
    Up,
    Down,
    Esc,
    /// Any other key.
    Other,
}

/// What a key asks of the caller.
#[derive(Debug, PartialEq, Eq)]
pub enum Command {
    /// Nothing: the key was dealt with on the screen, or stands for
    /// nothing.
    Stay,
    /// Leave the program.
    Quit,
    /// Have the dialogue summed up.
    Resume,
    /// Send this message of the user.
    Send(String),
}

/// The mathematical value of a `Command`.
pub ghost enum CommandView {
    Stay,
    Quit,
    Resume,
    Send(Seq<char>),
}

impl View for Command {
    type V = CommandView;

    open spec fn view(&self) -> CommandView {
        match self {
            Command::Stay => CommandView::Stay,
            Command::Quit => CommandView::Quit,
            Command::Resume => CommandView::Resume,
            Command::Send(text) => CommandView::Send(text@),
        }
    }
}

/// The state of the screen.
#[derive(Debug, PartialEq, Eq)]
pub struct Ui {
    pub input_field: InputField,
    pub message_box_data: BoxData,
}

/// The mathematical value of a `Ui`.
pub ghost struct UiView {
    pub input_field: InputFieldView,
    pub message_box_data: BoxData,
}

impl View for Ui {
    type V = UiView;

    open spec fn view(&self) -> UiView {
        UiView { input_field: self.input_field@, message_box_data: self.message_box_data }
    }
}

impl UiView {
    /// The screen with this text field.
    pub open spec fn with_field(self, input_field: InputFieldView) -> UiView {
        UiView { input_field, ..self }
    }

    /// The screen with this box of messages.
    pub open spec fn with_box(self, message_box_data: BoxData) -> UiView {
        UiView { message_box_data, ..self }
    }

    /// The text of the field is handed over for sending, where there is
    /// any.
    pub open spec fn submit_message(self) -> (UiView, CommandView) {
        if self.input_field.input.len() > 0 {
            (self.with_field(self.input_field.emptied()), CommandView::Send(self.input_field.input))
        } else {
            (self, CommandView::Stay)
        }
    }

    /// What a key does while the field is not edited: `e` starts editing,
    /// `q` leaves the program, `s` has the dialogue summed up, and the
    /// arrows up and down scroll the messages.
    pub open spec fn key_in_normal(self, key: Key) -> (UiView, CommandView) {
        match key {
            Key::Char('e') => (
                self.with_field(self.input_field.in_mode(InputMode::Editing)),
                CommandView::Stay,
            ),
            Key::Char('q') => (self, CommandView::Quit),
            Key::Char('s') => (self, CommandView::Resume),
            Key::Up => (self.with_box(self.message_box_data.scrolled_up()), CommandView::Stay),
            Key::Down => (self.with_box(self.message_box_data.scrolled_down()), CommandView::Stay),
            _ => (self, CommandView::Stay),
        }
    }

    /// What a key does while the field is edited: a character goes into
    /// the text, backspace removes one, the arrows move the cursor, enter
    /// hands the text over, and escape stops editing.
    pub open spec fn key_in_editing(self, key: Key) -> (UiView, CommandView) {
        match key {
            Key::Enter => self.submit_message(),
            Key::Char(to_insert) => (
                self.with_field(self.input_field.entered(to_insert)),
                CommandView::Stay,
            ),
            Key::Backspace => (self.with_field(self.input_field.deleted()), CommandView::Stay),
            Key::Left => (self.with_field(self.input_field.moved_left()), CommandView::Stay),
            Key::Right => (self.with_field(self.input_field.moved_right()), CommandView::Stay),
            Key::Up => (self.with_field(self.input_field.moved_up()), CommandView::Stay),
            Key::Down => (self.with_field(self.input_field.moved_down()), CommandView::Stay),
            Key::Esc => (
                self.with_field(self.input_field.in_mode(InputMode::Normal)),
                CommandView::Stay,
            ),
            Key::Other => (self, CommandView::Stay),
        }
    }

    /// What a key does. While the field is edited, only a key that is
    /// pressed counts, not one that is held or released.
    pub open spec fn key(self, key: Key, pressed: bool) -> (UiView, CommandView) {
        match self.input_field.input_mode {
            InputMode::Normal => self.key_in_normal(key),
            InputMode::Editing => if pressed {
                self.key_in_editing(key)
            } else {
                (self, CommandView::Stay)
            },
        }
    }
}

impl Ui {
    /// A screen with an empty field and an empty box of messages.
    pub fn new() -> (r: Ui)
        ensures
            r@ == (UiView { input_field: InputFieldView::start(), message_box_data: empty_box() }),
    {
        Ui { input_field: InputField::new(), message_box_data: BoxData::new() }
    }

    /// Hands the text of the field over for sending, where there is any.
    pub fn submit_message(&mut self) -> (command: Command)
        ensures
            (final(self)@, command@) == old(self)@.submit_message(),
    {
        match self.input_field.submit() {
            Some(text) => Command::Send(text),
            None => Command::Stay,
        }
    }

    /// Scrolls the messages up by one line, if they can.
    pub fn move_messages_up(&mut self)
        ensures
            final(self)@ == old(self)@.with_box(old(self)@.message_box_data.scrolled_up()),
    {
        self.message_box_data.scroll_up();
    }

    /// Scrolls the messages down by one line, if they can.
    pub fn move_messages_down(&mut self)
        ensures
            final(self)@ == old(self)@.with_box(old(self)@.message_box_data.scrolled_down()),
    {
        self.message_box_data.scroll_down();
    }

    /// Takes a key, does on the screen what the key stands for, and
    /// returns what it asks of the caller.
    pub fn key(&mut self, key: Key, pressed: bool) -> (command: Command)
        ensures
            (final(self)@, command@) == old(self)@.key(key, pressed),
    {
        match self.input_field.mode() {
            InputMode::Normal => match key {
                Key::Char(c) => {
                    if c == 'e' {
                        self.input_field.set_mode(InputMode::Editing);
                        Command::Stay
                    } else if c == 'q' {
                        Command::Quit
                    } else if c == 's' {
                        Command::Resume
                    } else {
                        Command::Stay
                    }
                },
                Key::Up => {
                    self.move_messages_up();
                    Command::Stay
                },
                Key::Down => {
                    self.move_messages_down();
                    Command::Stay
                },
                _ => Command::Stay,
            },
            InputMode::Editing => {
                if !pressed {
                    return Command::Stay;
                }
                match key {
                    Key::Enter => self.submit_message(),
                    Key::Char(to_insert) => {
                        self.input_field.enter_char(to_insert);
                        Command::Stay
                    },
                    Key::Backspace => {
                        self.input_field.delete_char();
                        Command::Stay
                    },
                    Key::Left => {
                        self.input_field.move_cursor_left();
                        Command::Stay
                    },
                    Key::Right => {
                        self.input_field.move_cursor_right();
                        Command::Stay
                    },
                    Key::Up => {
                        self.input_field.move_cursor_up();
                        Command::Stay
                    },
                    Key::Down => {
                        self.input_field.move_cursor_down();
                        Command::Stay
                    },
                    Key::Esc => {
                        self.input_field.set_mode(InputMode::Normal);
                        Command::Stay
                    },
                    Key::Other => Command::Stay,
                }
            },
        }
    }
}

} // verus!
