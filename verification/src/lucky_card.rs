//! Lucky draw cards. Only the card tier lives here: the card itself carries
//! a fractional multiplier, which the verified library does not model.

use vstd::prelude::*;

verus! {

/// Tier of a lucky card, from the highest multiplier range down.
#[derive(Debug, Clone, Copy, PartialEq, Eq, Structural)]
pub enum CardLevel {
    A,
    B,
    C,
    D,
    E,
}

} // verus!
