//! Classification of a sequence call by the relative rank of the called tile
//! within the run it completes.
use vstd::prelude::*;
use crate::events::{spec_deaka, deaka};

verus! {

/// Where the called tile sits inside the completed three-tile run.
#[derive(Clone, Copy, Debug, PartialEq, Eq, Structural)]
pub enum ChiType {
    /// The called tile is the lowest tile of the run.
    Low,
    /// The called tile is the middle tile of the run.
    Mid,
    /// The called tile is the highest tile of the run.
    High,
}

/// Rank classification of the called tile `pai` against the two consumed
/// tiles, all compared by their ordinary (non-promoted) identities: both
/// consumed tiles above the called tile make it the low end, both below make
/// it the high end, one on each side makes it the middle.
pub open spec fn spec_chi_type(consumed: [u8; 2], pai: u8) -> ChiType {
    let p = spec_deaka(pai);
    let a = spec_deaka(consumed[0]);
    let b = spec_deaka(consumed[1]);
    if a > p && b > p {
        ChiType::Low
    } else if a < p && b < p {
        ChiType::High
    } else {
        ChiType::Mid
    }
}

impl ChiType {
    /// Classifies a sequence call from its consumed tiles and called tile.
    pub fn new(consumed: [u8; 2], pai: u8) -> (r: ChiType)
        ensures
            r == spec_chi_type(consumed, pai),
    {
        let p = deaka(pai);
        let a = deaka(consumed[0]);
        let b = deaka(consumed[1]);
        if a > p && b > p {
            ChiType::Low
        } else if a < p && b < p {
            ChiType::High
        } else {
            ChiType::Mid
        }
    }
}

} // verus!
