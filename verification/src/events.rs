use vstd::prelude::*;

verus! {

/// A key, as far as the browser tells keys apart.
#[derive(Debug, Clone, Copy, PartialEq, Eq, Structural)]
pub enum KeyCode {
    /// A key that types a character.
    Char(char),
    Up,
    Down,
    Enter,
    Esc,
    Backspace,
    /// Any key the browser has no use for.
    Other,
}

/// What happened to a key.
#[derive(Debug, Clone, Copy, PartialEq, Eq, Structural)]
pub enum KeyEventKind {
    Press,
    Repeat,
    Release,
}

/// A key and what happened to it.
#[derive(Debug, Clone, Copy, PartialEq, Eq, Structural)]
pub struct KeyEvent {
    pub code: KeyCode,
    pub kind: KeyEventKind,
}

/// Something the terminal reported.
#[derive(Debug, Clone, Copy, PartialEq, Eq, Structural)]
pub enum Event {
    Key(KeyEvent),
    /// Anything that is not about a key.
    Other,
}

impl Event {
    /// The key that was pressed, if the event is the press of a key. A key
    /// held down or let go counts for nothing.
    pub open spec fn pressed(self) -> Option<KeyCode> {
        match self {
            Event::Key(key_event) if key_event.kind == KeyEventKind::Press => Some(key_event.code),
            _ => None,
        }
    }
}

/// What a key means where only moving and leaving are possible.
#[derive(Debug, Clone, Copy, PartialEq, Eq, Structural)]
pub enum MyEvent {
    MoveUp,
    MoveDown,
    Exit,
}

pub struct AppEvents {}

impl AppEvents {
    /// The meaning of a key: `q` leaves, the arrows move, nothing else counts.
    pub open spec fn meaning(code: KeyCode) -> Option<MyEvent> {
        match code {
            KeyCode::Char(c) if c == 'q' => Some(MyEvent::Exit),
            KeyCode::Up => Some(MyEvent::MoveUp),
            KeyCode::Down => Some(MyEvent::MoveDown),
            _ => None,
        }
    }

    /// Reads a key event as what it means.
    pub fn handle_key_event(key_event: KeyEvent) -> (event: Option<MyEvent>)
        ensures
            event == Self::meaning(key_event.code),
    {
        match key_event.code {
            KeyCode::Char('q') => Some(MyEvent::Exit),
            KeyCode::Up => Some(MyEvent::MoveUp),
            KeyCode::Down => Some(MyEvent::MoveDown),
            _ => None,
        }
    }
}

} // verus!
