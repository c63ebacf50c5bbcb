use vstd::prelude::*;

verus! {

/// The key of a key event, as far as the editor tells keys apart.
#[derive(Clone, Copy, Debug, PartialEq, Eq)]
pub enum KeyCode {
    Up,
    Down,
    Left,
    Right,
    PageUp,
    PageDown,
    Home,
    End,
    Char(char),
    Other,
}

/// Whether a key went down, is held, or came up.
#[derive(Clone, Copy, Debug, PartialEq, Eq)]
pub enum KeyEventKind {
    Press,
    Repeat,
    Release,
}

/// The bit of the shift key in a modifier set.
pub const MODIFIER_SHIFT: u8 = 0b0000_0001;

/// The bit of the control key in a modifier set.
pub const MODIFIER_CONTROL: u8 = 0b0000_0010;

/// A key event: the key, its kind, and the set of modifier keys held, one
/// bit each.
#[derive(Clone, Copy, Debug, PartialEq, Eq)]
pub struct KeyEvent {
    pub code: KeyCode,
    pub kind: KeyEventKind,
    pub modifiers: u8,
}

/// An input event: a key, a new terminal size (columns, then rows), or
/// anything else.
#[derive(Clone, Copy, Debug, PartialEq, Eq)]
pub enum Event {
    Key(KeyEvent),
    Resize(u16, u16),
    Other,
}

/// The key moves the caret.
pub open spec fn is_movement(code: KeyCode) -> bool {
    match code {
        KeyCode::Up | KeyCode::Down | KeyCode::Left | KeyCode::Right | KeyCode::PageUp
        | KeyCode::PageDown | KeyCode::Home | KeyCode::End => true,
        _ => false,
    }
}

/// The key event asks to quit: `q` pressed with control and no other modifier.
pub open spec fn is_quit(key: KeyEvent) -> bool {
    key.kind == KeyEventKind::Press && key.code == KeyCode::Char('q') && key.modifiers
        == MODIFIER_CONTROL
}

} // verus!
