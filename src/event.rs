//! Input events, as the library receives them from the windowing system.
use vstd::prelude::*;

use crate::config::{Key, Location};

verus! {

/// The modifier keys held down while a key was pressed.
#[derive(Debug, Clone, Copy, Default, PartialEq, Eq, Structural)]
pub struct Modifiers {
    pub shift: bool,
    pub alt: bool,
}

/// A keyboard event.
#[derive(Debug, Clone)]
pub enum Event {
    /// A key went down; `text` is what it types, if it types anything.
    KeyPressed { key: Key, location: Location, modifiers: Modifiers, text: Option<String> },
    /// A key went up.
    KeyReleased { key: Key, location: Location },
    /// Any other event of the window.
    Other,
}

} // verus!
