//! What the scanner consumes from its collaborators at each event position,
//! and the request it emits for a privileged (hidden-information) encoding.
//!
//! The per-participant state tracker and the hidden-information reconstructor
//! are outside this library: the tracker's per-event answers arrive as a
//! trace aligned with the event list, and a privileged encoding is requested
//! by index rather than materialized here.
use vstd::prelude::*;
use crate::action::ActionCandidates;

verus! {

/// The state tracker's answers after it has consumed one event, for the
/// participant whose decisions are being recorded. `obs`/`mask` carry the
/// tracker's feature encoding and legality mask for an ordinary decision at
/// this position, `kan_obs`/`kan_mask` the encoding for the "which tile"
/// sub-decision of a quad; their payload types are the caller's own.
#[derive(Clone, Copy, Debug)]
pub struct TrackerStep<F, M> {
    /// Action categories legal after this event.
    pub cans: ActionCandidates,
    /// Turn index within the current round.
    pub at_turn: u8,
    /// Tiles-to-completion distance of the tracked hand.
    pub shanten: i8,
    /// How many tile candidates an extended quad could legally use here.
    pub kakan_candidate_count: usize,
    /// How many tile candidates a self-declared quad could legally use here.
    pub ankan_candidate_count: usize,
    /// Feature encoding for an ordinary decision at this position.
    pub obs: F,
    /// Legality mask for an ordinary decision at this position.
    pub mask: M,
    /// Feature encoding for the quad-tile sub-decision at this position.
    pub kan_obs: F,
    /// Legality mask for the quad-tile sub-decision at this position.
    pub kan_mask: M,
}

/// A request for one privileged feature encoding: which event position the
/// record belongs to, the round it falls in, and the live-wall and dead-wall
/// draw counters the reconstruction must be indexed with. The reconstructor
/// resolves such a request against the opponents' tracker states as of
/// `at_event`.
#[derive(Clone, Copy, Debug, PartialEq, Eq, Structural)]
pub struct InvisibleIndex {
    /// Position in the event list of the window's current event.
    pub at_event: usize,
    /// Round index at the decision point.
    pub kyoku_idx: usize,
    /// Live-wall draw counter at the decision point.
    pub yama_idx: usize,
    /// Dead-wall draw counter at the decision point.
    pub rinshan_idx: usize,
}

} // verus!
