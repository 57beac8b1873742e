//! What the terminal delivers while the dashboard waits: key strokes, and everything else.

use vstd::prelude::*;

verus! {

/// The modifier keys held with a key stroke.
#[derive(Clone, Copy, Debug, PartialEq, Eq, Structural)]
pub struct Modifiers {
    pub shift: bool,
    pub control: bool,
    pub alt: bool,
    pub logo: bool,
    pub hyper: bool,
    pub meta: bool,
}

/// The key of a key stroke, as far as the dashboard tells keys apart.
#[derive(Clone, Copy, Debug, PartialEq, Eq, Structural)]
pub enum KeyCode {
    /// A key that produces a character.
    Char(char),
    /// Any other key.
    Other,
}

/// A key stroke.
#[derive(Clone, Copy, Debug, PartialEq, Eq, Structural)]
pub struct Key {
    pub code: KeyCode,
    pub modifiers: Modifiers,
}

/// One input event.
#[derive(Clone, Copy, Debug, PartialEq, Eq, Structural)]
pub enum Input {
    /// A key stroke.
    Key(Key),
    /// Anything else: the mouse, a resize, a change of focus, pasted text.
    Other,
}

impl Modifiers {
    /// Whether no modifier key is held.
    pub open spec fn is_empty(self) -> bool {
        !self.shift && !self.control && !self.alt && !self.logo && !self.hyper && !self.meta
    }

    /// No modifier key held.
    pub fn none() -> (modifiers: Modifiers)
        ensures
            modifiers.is_empty(),
    {
        Modifiers {
            shift: false,
            control: false,
            alt: false,
            logo: false,
            hyper: false,
            meta: false,
        }
    }
}

impl Key {
    /// Whether the stroke asks to quit: `q` with no modifier held, or `c` with the
    /// control key held.
    pub open spec fn quits(self) -> bool {
        ||| self.code == KeyCode::Char('q') && self.modifiers.is_empty()
        ||| self.code == KeyCode::Char('c') && self.modifiers.control
    }
}

impl Input {
    /// Whether the event asks to quit: a key stroke that does.
    pub open spec fn quits(self) -> bool {
        match self {
            Input::Key(key) => key.quits(),
            Input::Other => false,
        }
    }

    /// Tells whether the event asks to quit.
    pub fn is_quit(&self) -> (quit: bool)
        ensures
            quit == self.quits(),
    {
        match self {
            Input::Key(key) => {
                let bare = !key.modifiers.shift && !key.modifiers.control && !key.modifiers.alt
                    && !key.modifiers.logo && !key.modifiers.hyper && !key.modifiers.meta;
                match key.code {
                    KeyCode::Char(c) => (c == 'q' && bare) || (c == 'c' && key.modifiers.control),
                    KeyCode::Other => false,
                }
            },
            Input::Other => false,
        }
    }
}

} // verus!
