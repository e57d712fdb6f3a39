use vstd::prelude::*;

verus! {

/// What a fish learns from its neighbours in one tick: nothing, or that it
/// should head away from a fish on its left or on its right.
#[derive(Clone, Copy, Debug, PartialEq, Eq, Structural)]
pub enum Collision {
    No,
    Left,
    Right,
}

} // verus!
