//! The per-participant accumulator: column-oriented record buffers with a
//! one-shot drain per column, plus the mathematical record model the scanner
//! is specified against.
use vstd::prelude::*;
use crate::action::LABEL_REACH;
use crate::trace::{InvisibleIndex, TrackerStep};

verus! {

/// One training record, as the contracts see it: the payloads the tracker
/// supplied, the derived label, and the bookkeeping columns.
pub ghost struct RecV<F, M> {
    pub obs: F,
    pub mask: M,
    pub label: int,
    pub at_kyoku: u8,
    pub apply_gamma: bool,
    pub at_turn: u8,
    pub shanten: i8,
    pub invisible: Option<InvisibleIndex>,
}

/// The record a decision point emits: payloads chosen by whether this is the
/// quad-tile sub-decision, discount eligibility derived from the label code,
/// and, in privileged mode, the request for a hidden-information encoding.
pub open spec fn make_rec<F, M>(
    oracle: bool,
    at_kan_select: bool,
    label: int,
    at_kyoku: int,
    at_event: usize,
    yama_idx: usize,
    rinshan_idx: usize,
    step: TrackerStep<F, M>,
) -> RecV<F, M> {
    RecV {
        obs: if at_kan_select {
            step.kan_obs
        } else {
            step.obs
        },
        mask: if at_kan_select {
            step.kan_mask
        } else {
            step.mask
        },
        label: label,
        at_kyoku: (at_kyoku % 256) as u8,
        apply_gamma: label <= LABEL_REACH,
        at_turn: step.at_turn,
        shanten: step.shanten,
        invisible: if oracle {
            Some(
                InvisibleIndex {
                    at_event,
                    kyoku_idx: at_kyoku as usize,
                    yama_idx,
                    rinshan_idx,
                },
            )
        } else {
            None
        },
    }
}

/// Column-oriented buffers holding one entry per record, indices aligned
/// across all columns, plus the per-game metadata. Columns are drained at
/// most once each; draining leaves the column empty.
#[derive(Debug)]
pub struct Gameplay<F, M, G> {
    /// The per-game round-outcome grouping, derived by an outside extractor
    /// and carried as an opaque payload; drained at most once.
    pub grp: Option<G>,
    /// Feature encodings, one per record.
    pub obs: Vec<F>,
    /// Privileged-encoding requests; empty unless privileged views are on.
    pub invisible_obs: Vec<InvisibleIndex>,
    /// Action labels in the fixed 46-symbol space.
    pub actions: Vec<i64>,
    /// Legality masks, one per record.
    pub masks: Vec<M>,
    /// Round index of each record.
    pub at_kyoku: Vec<u8>,
    /// Episode-boundary flags, filled by the post-pass.
    pub dones: Vec<bool>,
    /// Reward-discount-eligibility flags.
    pub apply_gamma: Vec<bool>,
    /// Turn-within-round index of each record.
    pub at_turns: Vec<u8>,
    /// Tiles-to-completion distance at each record.
    pub shantens: Vec<i8>,
    /// The selected seat.
    pub player_id: u8,
    /// The selected participant's display name.
    pub player_name: String,
}

impl<F, M, G> Gameplay<F, M, G> {
    /// All record columns hold one entry per record; the privileged column is
    /// filled exactly in privileged mode.
    pub open spec fn wf_cols(&self, oracle: bool) -> bool {
        &&& self.obs@.len() == self.actions@.len()
        &&& self.masks@.len() == self.actions@.len()
        &&& self.at_kyoku@.len() == self.actions@.len()
        &&& self.apply_gamma@.len() == self.actions@.len()
        &&& self.at_turns@.len() == self.actions@.len()
        &&& self.shantens@.len() == self.actions@.len()
        &&& self.invisible_obs@.len() == (if oracle {
            self.actions@.len()
        } else {
            0
        })
    }

    /// The record at index `i`, reassembled from the columns.
    pub open spec fn rec_at(&self, oracle: bool, i: int) -> RecV<F, M> {
        RecV {
            obs: self.obs@[i],
            mask: self.masks@[i],
            label: self.actions@[i] as int,
            at_kyoku: self.at_kyoku@[i],
            apply_gamma: self.apply_gamma@[i],
            at_turn: self.at_turns@[i],
            shanten: self.shantens@[i],
            invisible: if oracle {
                Some(self.invisible_obs@[i])
            } else {
                None
            },
        }
    }

    /// The whole record sequence the columns hold.
    pub open spec fn recs(&self, oracle: bool) -> Seq<RecV<F, M>> {
        Seq::new(self.actions@.len(), |i: int| self.rec_at(oracle, i))
    }

    /// A fresh, empty accumulator for one selected seat, carrying the
    /// game's round-outcome grouping payload.
    pub fn new(player_id: u8, grp: Option<G>) -> (g: Gameplay<F, M, G>)
        ensures
            g.wf_cols(true),
            g.wf_cols(false),
            g.actions@.len() == 0,
            g.dones@.len() == 0,
            g.player_id == player_id,
            g.player_name@ == Seq::<char>::empty(),
            g.grp == grp,
    {
        Gameplay {
            grp,
            obs: Vec::new(),
            invisible_obs: Vec::new(),
            actions: Vec::new(),
            masks: Vec::new(),
            at_kyoku: Vec::new(),
            dones: Vec::new(),
            apply_gamma: Vec::new(),
            at_turns: Vec::new(),
            shantens: Vec::new(),
            player_id,
            player_name: String::new(),
        }
    }
}

impl<F: Copy, M: Copy, G: Copy> Gameplay<F, M, G> {
    /// Appends one record: the tracker's payloads for this decision (or for
    /// the quad-tile sub-decision), the label, the current round index, the
    /// discount flag derived from the label code, and, in privileged mode,
    /// the request for a hidden-information encoding at the current wall
    /// counters.
    pub fn add_entry(
        &mut self,
        oracle: bool,
        at_kan_select: bool,
        label: u8,
        kyoku_idx: usize,
        at_event: usize,
        yama_idx: usize,
        rinshan_idx: usize,
        step: &TrackerStep<F, M>,
    )
        requires
            old(self).wf_cols(oracle),
        ensures
            final(self).wf_cols(oracle),
            final(self).recs(oracle) == old(self).recs(oracle).push(
                make_rec(
                    oracle,
                    at_kan_select,
                    label as int,
                    kyoku_idx as int,
                    at_event,
                    yama_idx,
                    rinshan_idx,
                    *step,
                ),
            ),
            final(self).dones == old(self).dones,
            final(self).player_id == old(self).player_id,
            final(self).player_name == old(self).player_name,
            final(self).grp == old(self).grp,
    {
        if at_kan_select {
            self.obs.push(step.kan_obs);
            self.masks.push(step.kan_mask);
        } else {
            self.obs.push(step.obs);
            self.masks.push(step.mask);
        }
        self.actions.push(label as i64);
        self.at_kyoku.push((kyoku_idx % 256) as u8);
        self.apply_gamma.push(label <= LABEL_REACH);
        self.at_turns.push(step.at_turn);
        self.shantens.push(step.shanten);
        if oracle {
            self.invisible_obs.push(
                InvisibleIndex { at_event, kyoku_idx, yama_idx, rinshan_idx },
            );
        }
        proof {
            let r = make_rec(
                oracle,
                at_kan_select,
                label as int,
                kyoku_idx as int,
                at_event,
                yama_idx,
                rinshan_idx,
                *step,
            );
            assert(self.recs(oracle) =~= old(self).recs(oracle).push(r));
        }
    }
}

/// The episode-boundary column derived from the round-index column: a record
/// is a boundary exactly when the next record's round index is strictly
/// greater, and the final record is always a boundary.
pub open spec fn dones_of(at_kyoku: Seq<u8>) -> Seq<bool> {
    Seq::new(
        at_kyoku.len(),
        |i: int|
            if i == at_kyoku.len() - 1 {
                true
            } else {
                at_kyoku[i + 1] > at_kyoku[i]
            },
    )
}

/// The episode-boundary column is true exactly for a record immediately
/// preceding a round-index increase and for the last record overall, and
/// false elsewhere.
pub proof fn lemma_episode_boundary_flags(at_kyoku: Seq<u8>)
    ensures
        dones_of(at_kyoku).len() == at_kyoku.len(),
        forall|i: int|
            0 <= i < at_kyoku.len() - 1 ==> dones_of(at_kyoku)[i] == (at_kyoku[i + 1]
                > at_kyoku[i]),
        at_kyoku.len() > 0 ==> dones_of(at_kyoku)[at_kyoku.len() - 1],
{
}

impl<F, M, G> Gameplay<F, M, G> {
    /// The post-pass: computes the episode-boundary column from the finished
    /// round-index column.
    pub fn finalize_dones(&mut self)
        ensures
            final(self).dones@ == dones_of(old(self).at_kyoku@),
            final(self).obs == old(self).obs,
            final(self).invisible_obs == old(self).invisible_obs,
            final(self).actions == old(self).actions,
            final(self).masks == old(self).masks,
            final(self).at_kyoku == old(self).at_kyoku,
            final(self).apply_gamma == old(self).apply_gamma,
            final(self).at_turns == old(self).at_turns,
            final(self).shantens == old(self).shantens,
            final(self).player_id == old(self).player_id,
            final(self).player_name == old(self).player_name,
            final(self).grp == old(self).grp,
    {
        let n = self.at_kyoku.len();
        let mut dones: Vec<bool> = Vec::new();
        let mut i: usize = 0;
        while i + 1 < n
            invariant
                n == self.at_kyoku@.len(),
                0 <= i <= n,
                n > 0 ==> i < n,
                dones@.len() == i,
                forall|j: int| 0 <= j < i ==> dones@[j] == (self.at_kyoku@[j + 1] > self.at_kyoku@[j]),
            decreases n - i,
        {
            dones.push(self.at_kyoku[i + 1] > self.at_kyoku[i]);
            i += 1;
        }
        if n > 0 {
            dones.push(true);
        }
        self.dones = dones;
        proof {
            assert(self.dones@ =~= dones_of(self.at_kyoku@));
        }
    }

    /// Drains the feature-encoding column, leaving it empty.
    pub fn take_obs(&mut self) -> (r: Vec<F>)
        ensures
            r == old(self).obs,
            final(self).obs@.len() == 0,
            final(self).invisible_obs == old(self).invisible_obs,
            final(self).actions == old(self).actions,
            final(self).masks == old(self).masks,
            final(self).at_kyoku == old(self).at_kyoku,
            final(self).dones == old(self).dones,
            final(self).apply_gamma == old(self).apply_gamma,
            final(self).at_turns == old(self).at_turns,
            final(self).shantens == old(self).shantens,
            final(self).player_id == old(self).player_id,
            final(self).player_name == old(self).player_name,
            final(self).grp == old(self).grp,
    {
        let mut out: Vec<F> = Vec::new();
        core::mem::swap(&mut out, &mut self.obs);
        out
    }

    /// Drains the privileged-encoding-request column, leaving it empty.
    pub fn take_invisible_obs(&mut self) -> (r: Vec<InvisibleIndex>)
        ensures
            r == old(self).invisible_obs,
            final(self).invisible_obs@.len() == 0,
            final(self).obs == old(self).obs,
            final(self).actions == old(self).actions,
            final(self).masks == old(self).masks,
            final(self).at_kyoku == old(self).at_kyoku,
            final(self).dones == old(self).dones,
            final(self).apply_gamma == old(self).apply_gamma,
            final(self).at_turns == old(self).at_turns,
            final(self).shantens == old(self).shantens,
            final(self).player_id == old(self).player_id,
            final(self).player_name == old(self).player_name,
            final(self).grp == old(self).grp,
    {
        let mut out: Vec<InvisibleIndex> = Vec::new();
        core::mem::swap(&mut out, &mut self.invisible_obs);
        out
    }

    /// Drains the label column, leaving it empty.
    pub fn take_actions(&mut self) -> (r: Vec<i64>)
        ensures
            r == old(self).actions,
            final(self).actions@.len() == 0,
            final(self).obs == old(self).obs,
            final(self).invisible_obs == old(self).invisible_obs,
            final(self).masks == old(self).masks,
            final(self).at_kyoku == old(self).at_kyoku,
            final(self).dones == old(self).dones,
            final(self).apply_gamma == old(self).apply_gamma,
            final(self).at_turns == old(self).at_turns,
            final(self).shantens == old(self).shantens,
            final(self).player_id == old(self).player_id,
            final(self).player_name == old(self).player_name,
            final(self).grp == old(self).grp,
    {
        let mut out: Vec<i64> = Vec::new();
        core::mem::swap(&mut out, &mut self.actions);
        out
    }

    /// Drains the legality-mask column, leaving it empty.
    pub fn take_masks(&mut self) -> (r: Vec<M>)
        ensures
            r == old(self).masks,
            final(self).masks@.len() == 0,
            final(self).obs == old(self).obs,
            final(self).invisible_obs == old(self).invisible_obs,
            final(self).actions == old(self).actions,
            final(self).at_kyoku == old(self).at_kyoku,
            final(self).dones == old(self).dones,
            final(self).apply_gamma == old(self).apply_gamma,
            final(self).at_turns == old(self).at_turns,
            final(self).shantens == old(self).shantens,
            final(self).player_id == old(self).player_id,
            final(self).player_name == old(self).player_name,
            final(self).grp == old(self).grp,
    {
        let mut out: Vec<M> = Vec::new();
        core::mem::swap(&mut out, &mut self.masks);
        out
    }

    /// Drains the round-index column, leaving it empty.
    pub fn take_at_kyoku(&mut self) -> (r: Vec<u8>)
        ensures
            r == old(self).at_kyoku,
            final(self).at_kyoku@.len() == 0,
            final(self).obs == old(self).obs,
            final(self).invisible_obs == old(self).invisible_obs,
            final(self).actions == old(self).actions,
            final(self).masks == old(self).masks,
            final(self).dones == old(self).dones,
            final(self).apply_gamma == old(self).apply_gamma,
            final(self).at_turns == old(self).at_turns,
            final(self).shantens == old(self).shantens,
            final(self).player_id == old(self).player_id,
            final(self).player_name == old(self).player_name,
            final(self).grp == old(self).grp,
    {
        let mut out: Vec<u8> = Vec::new();
        core::mem::swap(&mut out, &mut self.at_kyoku);
        out
    }

    /// Drains the episode-boundary column, leaving it empty.
    pub fn take_dones(&mut self) -> (r: Vec<bool>)
        ensures
            r == old(self).dones,
            final(self).dones@.len() == 0,
            final(self).obs == old(self).obs,
            final(self).invisible_obs == old(self).invisible_obs,
            final(self).actions == old(self).actions,
            final(self).masks == old(self).masks,
            final(self).at_kyoku == old(self).at_kyoku,
            final(self).apply_gamma == old(self).apply_gamma,
            final(self).at_turns == old(self).at_turns,
            final(self).shantens == old(self).shantens,
            final(self).player_id == old(self).player_id,
            final(self).player_name == old(self).player_name,
            final(self).grp == old(self).grp,
    {
        let mut out: Vec<bool> = Vec::new();
        core::mem::swap(&mut out, &mut self.dones);
        out
    }

    /// Drains the discount-eligibility column, leaving it empty.
    pub fn take_apply_gamma(&mut self) -> (r: Vec<bool>)
        ensures
            r == old(self).apply_gamma,
            final(self).apply_gamma@.len() == 0,
            final(self).obs == old(self).obs,
            final(self).invisible_obs == old(self).invisible_obs,
            final(self).actions == old(self).actions,
            final(self).masks == old(self).masks,
            final(self).at_kyoku == old(self).at_kyoku,
            final(self).dones == old(self).dones,
            final(self).at_turns == old(self).at_turns,
            final(self).shantens == old(self).shantens,
            final(self).player_id == old(self).player_id,
            final(self).player_name == old(self).player_name,
            final(self).grp == old(self).grp,
    {
        let mut out: Vec<bool> = Vec::new();
        core::mem::swap(&mut out, &mut self.apply_gamma);
        out
    }

    /// Drains the turn-index column, leaving it empty.
    pub fn take_at_turns(&mut self) -> (r: Vec<u8>)
        ensures
            r == old(self).at_turns,
            final(self).at_turns@.len() == 0,
            final(self).obs == old(self).obs,
            final(self).invisible_obs == old(self).invisible_obs,
            final(self).actions == old(self).actions,
            final(self).masks == old(self).masks,
            final(self).at_kyoku == old(self).at_kyoku,
            final(self).dones == old(self).dones,
            final(self).apply_gamma == old(self).apply_gamma,
            final(self).shantens == old(self).shantens,
            final(self).player_id == old(self).player_id,
            final(self).player_name == old(self).player_name,
            final(self).grp == old(self).grp,
    {
        let mut out: Vec<u8> = Vec::new();
        core::mem::swap(&mut out, &mut self.at_turns);
        out
    }

    /// Drains the shanten column, leaving it empty.
    pub fn take_shantens(&mut self) -> (r: Vec<i8>)
        ensures
            r == old(self).shantens,
            final(self).shantens@.len() == 0,
            final(self).obs == old(self).obs,
            final(self).invisible_obs == old(self).invisible_obs,
            final(self).actions == old(self).actions,
            final(self).masks == old(self).masks,
            final(self).at_kyoku == old(self).at_kyoku,
            final(self).dones == old(self).dones,
            final(self).apply_gamma == old(self).apply_gamma,
            final(self).at_turns == old(self).at_turns,
            final(self).player_id == old(self).player_id,
            final(self).player_name == old(self).player_name,
            final(self).grp == old(self).grp,
    {
        let mut out: Vec<i8> = Vec::new();
        core::mem::swap(&mut out, &mut self.shantens);
        out
    }

    /// Drains the per-game round-outcome grouping payload, leaving none.
    pub fn take_grp(&mut self) -> (r: Option<G>)
        ensures
            r == old(self).grp,
            final(self).grp is None,
            final(self).obs == old(self).obs,
            final(self).invisible_obs == old(self).invisible_obs,
            final(self).actions == old(self).actions,
            final(self).masks == old(self).masks,
            final(self).at_kyoku == old(self).at_kyoku,
            final(self).dones == old(self).dones,
            final(self).apply_gamma == old(self).apply_gamma,
            final(self).at_turns == old(self).at_turns,
            final(self).shantens == old(self).shantens,
            final(self).player_id == old(self).player_id,
            final(self).player_name == old(self).player_name,
    {
        let mut out: Option<G> = None;
        core::mem::swap(&mut out, &mut self.grp);
        out
    }

    /// The selected seat this accumulator belongs to.
    pub fn take_player_id(&self) -> (r: u8)
        ensures
            r == self.player_id,
    {
        self.player_id
    }
}

} // verus!
