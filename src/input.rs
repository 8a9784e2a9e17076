use vstd::prelude::*;

verus! {

/// Kind of a raw pointer event.
#[derive(Debug, Clone, Copy, PartialEq, Eq, Structural, PartialOrd, Ord, Hash)]
pub enum ModelerInputEventType {
    /// The pointer touches the surface: the first event of a stroke.
    Down,
    /// The pointer moves on the surface, between `Down` and `Up`.
    Move,
    /// The pointer leaves the surface: the last event of a stroke.
    Up,
}

} // verus!
