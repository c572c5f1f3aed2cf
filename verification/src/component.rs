//! Pieces shared by the components of a screen.
use vstd::prelude::*;

verus! {

/// A cell of the terminal: column `x`, row `y`.
#[derive(Debug, Clone, Copy, PartialEq, Eq, Structural)]
pub struct Position {
    pub x: usize,
    pub y: usize,
}

/// Passed to every component on each event and render call, holding a mutable
/// reference to your application state.
pub struct Context<'a, S> {
    pub state: &'a mut S,
}

} // verus!
