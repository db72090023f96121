//! What kind of exercise a lesson page asks for.
use vstd::prelude::*;

verus! {

/// The exercise of a page.
#[derive(Debug, Clone, Default)]
pub enum Exercise {
    /// Nothing to type.
    #[default]
    Empty,
    /// One line to type.
    OneLineNoEnter(String),
    /// Several lines, one per line of the text, typed in order.
    Multiline(String),
}

} // verus!
