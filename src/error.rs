use vstd::prelude::*;

verus! {

/// Why a transition was rejected. A rejected transition changes nothing.
#[derive(Clone, Copy, Debug, PartialEq, Eq, Structural)]
pub enum Error {
    /// The two parents have the same gender.
    SameGender,
    /// No kitty of the caller has the given id.
    InvalidKittyId,
    /// The id counter has reached the largest `u32`.
    Overflow,
    /// The store already holds a kitty under that owner and id.
    DuplicateKittyId,
}

} // verus!
