//! Terminal events, as far as the engine reads them.
use vstd::prelude::*;

verus! {

/// The key of a key event.
#[derive(Clone, Copy, Debug, PartialEq, Eq, Structural)]
pub enum KeyCode {
    Char(char),
    Tab,
    /// Any other key.
    Other,
}

/// Whether a key went down, is held or went up.
#[derive(Clone, Copy, Debug, PartialEq, Eq, Structural)]
pub enum KeyEventKind {
    Press,
    Repeat,
    Release,
}

/// A key together with what happened to it.
#[derive(Clone, Copy, Debug, PartialEq, Eq, Structural)]
pub struct KeyEvent {
    pub code: KeyCode,
    pub kind: KeyEventKind,
}

/// An event of the terminal.
#[derive(Clone, Copy, Debug, PartialEq, Eq, Structural)]
pub enum Event {
    Key(KeyEvent),
    /// Anything that is not a key: a resize, the mouse, a paste.
    Other,
}

impl Event {
    /// The `q` key going down: the request to leave.
    pub open spec fn quits(self) -> bool {
        self == Event::Key(KeyEvent { code: KeyCode::Char('q'), kind: KeyEventKind::Press })
    }

    /// The tab key going down: the request to move the focus on.
    pub open spec fn advances(self) -> bool {
        self == Event::Key(KeyEvent { code: KeyCode::Tab, kind: KeyEventKind::Press })
    }

    /// Every other event belongs to the editor of the focused field.
    pub open spec fn edits(self) -> bool {
        !self.quits() && !self.advances()
    }
}

} // verus!
