use vstd::prelude::*;

use crate::types::NewFolderConfiguration;

verus! {

/// One key press, reduced to what the key mapping reads: the shell
/// translates its terminal backend's key events into this.
#[derive(Debug, Clone, Copy, PartialEq, Eq)]
pub enum Key {
    Char(char),
    Enter,
    Tab,
    BackTab,
    Esc,
    Backspace,
    Up,
    Down,
    Left,
    Right,
    Other,
}

/// One step of the interaction loop: what a key press means, or what a
/// popup decided.
#[derive(Debug, Clone, PartialEq, Eq)]
pub enum Message {
    Insert,
    Normal,
    Character(char),
    Backspace,
    Number(u32),
    FocusNext,
    FocusBack,
    Up,
    Down,
    Right,
    Left,
    Add,
    Quit,
    Reload,
    Select,
    Submit,
    NewFolder(Box<NewFolderConfiguration>),
    NewPendingDevice(String),
    AcceptDevice(String),
    IgnoreDevice(String),
    DismissDevice(String),
    ShareFolder { folder_id: String, device_id: String },
    DismissFolder { folder_id: String, device_id: String },
    NewPendingFolder { folder_label: String, folder_id: String, device_id: String },
    Noop,
}

/// What a key press means in normal mode.
pub open spec fn spec_handler_normal(key: Key, shift: bool) -> Message {
    match key {
        Key::Char(c) => {
            if c == 'r' {
                Message::Reload
            } else if c == 'q' {
                Message::Quit
            } else if c == 'j' {
                Message::Down
            } else if c == 'k' {
                Message::Up
            } else if c == 'l' {
                Message::Right
            } else if c == 'h' {
                Message::Left
            } else if c == 'i' {
                Message::Insert
            } else if c == '+' || c == 'o' {
                Message::Add
            } else if 48 <= (c as u32) && (c as u32) <= 57 {
                Message::Number(((c as u32) - 48) as u32)
            } else {
                Message::Noop
            }
        },
        Key::Down => Message::Down,
        Key::Up => Message::Up,
        Key::Right => Message::Right,
        Key::Left => Message::Left,
        Key::Enter => if shift {
            Message::Submit
        } else {
            Message::Select
        },
        Key::Tab => Message::FocusNext,
        Key::BackTab => Message::FocusBack,
        _ => Message::Noop,
    }
}

/// What a key press means in insert mode.
pub open spec fn spec_handler_insert(key: Key, shift: bool) -> Message {
    match key {
        Key::Char(c) => if c == '+' {
            Message::Add
        } else {
            Message::Character(c)
        },
        Key::Backspace => Message::Backspace,
        Key::Down => Message::Down,
        Key::Up => Message::Up,
        Key::Right => Message::Right,
        Key::Left => Message::Left,
        Key::Esc => Message::Normal,
        Key::Enter => if shift {
            Message::Submit
        } else {
            Message::Select
        },
        Key::Tab => Message::FocusNext,
        Key::BackTab => Message::FocusBack,
        _ => Message::Noop,
    }
}

/// Map one key press to a message, in the current input mode. Normal
/// mode is for navigation and commands; insert mode feeds characters to
/// the focused text box.
pub fn handler(key: Key, shift: bool, mode: &crate::app::CurrentMode) -> (r: Message)
    ensures
        r == (match mode {
            crate::app::CurrentMode::Normal => spec_handler_normal(key, shift),
            crate::app::CurrentMode::Insert => spec_handler_insert(key, shift),
        }),
{
    match mode {
        crate::app::CurrentMode::Normal => {
            match key {
                Key::Char(c) => {
                    if c == 'r' {
                        Message::Reload
                    } else if c == 'q' {
                        Message::Quit
                    } else if c == 'j' {
                        Message::Down
                    } else if c == 'k' {
                        Message::Up
                    } else if c == 'l' {
                        Message::Right
                    } else if c == 'h' {
                        Message::Left
                    } else if c == 'i' {
                        Message::Insert
                    } else if c == '+' || c == 'o' {
                        Message::Add
                    } else {
                        let u = c as u32;
                        if 48 <= u && u <= 57 {
                            Message::Number(u - 48)
                        } else {
                            Message::Noop
                        }
                    }
                },
                Key::Down => Message::Down,
                Key::Up => Message::Up,
                Key::Right => Message::Right,
                Key::Left => Message::Left,
                Key::Enter => if shift {
                    Message::Submit
                } else {
                    Message::Select
                },
                Key::Tab => Message::FocusNext,
                Key::BackTab => Message::FocusBack,
                _ => Message::Noop,
            }
        },
        crate::app::CurrentMode::Insert => {
            match key {
                Key::Char(c) => if c == '+' {
                    Message::Add
                } else {
                    Message::Character(c)
                },
                Key::Backspace => Message::Backspace,
                Key::Down => Message::Down,
                Key::Up => Message::Up,
                Key::Right => Message::Right,
                Key::Left => Message::Left,
                Key::Esc => Message::Normal,
                Key::Enter => if shift {
                    Message::Submit
                } else {
                    Message::Select
                },
                Key::Tab => Message::FocusNext,
                Key::BackTab => Message::FocusBack,
                _ => Message::Noop,
            }
        },
    }
}

} // verus!
