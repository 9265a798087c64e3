//! The set of action categories a participant's state tracker reports as
//! currently legal, and the label codes of the fixed 46-symbol action space.
use vstd::prelude::*;

verus! {

/// Label code for declaring reach; discard labels are the tile identities
/// `0..=36`, strictly below this code.
pub const LABEL_REACH: u8 = 37;
/// Label codes for the three sequence-call sub-types.
pub const LABEL_CHI_LOW: u8 = 38;
pub const LABEL_CHI_MID: u8 = 39;
pub const LABEL_CHI_HIGH: u8 = 40;
/// Label code for a triplet call.
pub const LABEL_PON: u8 = 41;
/// Label code for any quad declaration.
pub const LABEL_KAN: u8 = 42;
/// Label code for a win by call.
pub const LABEL_RON: u8 = 43;
/// Label code for declaring an abortive draw.
pub const LABEL_RYUKYOKU: u8 = 44;
/// Label code for passing on an opportunity.
pub const LABEL_PASS: u8 = 45;

/// The legal-action categories a state tracker reports after consuming one
/// event. A decision point exists exactly when at least one category is legal.
#[derive(Clone, Copy, Debug, PartialEq, Eq, Structural)]
pub struct ActionCandidates {
    pub can_discard: bool,
    pub can_riichi: bool,
    pub can_chi_low: bool,
    pub can_chi_mid: bool,
    pub can_chi_high: bool,
    pub can_pon: bool,
    pub can_daiminkan: bool,
    pub can_kakan: bool,
    pub can_ankan: bool,
    pub can_tsumo_agari: bool,
    pub can_ron_agari: bool,
    pub can_ryukyoku: bool,
}

impl ActionCandidates {
    /// No category is legal.
    pub open spec fn spec_none() -> ActionCandidates {
        ActionCandidates {
            can_discard: false,
            can_riichi: false,
            can_chi_low: false,
            can_chi_mid: false,
            can_chi_high: false,
            can_pon: false,
            can_daiminkan: false,
            can_kakan: false,
            can_ankan: false,
            can_tsumo_agari: false,
            can_ron_agari: false,
            can_ryukyoku: false,
        }
    }

    /// Executable form of [`ActionCandidates::spec_none`].
    pub fn none() -> (r: ActionCandidates)
        ensures
            r == ActionCandidates::spec_none(),
    {
        ActionCandidates {
            can_discard: false,
            can_riichi: false,
            can_chi_low: false,
            can_chi_mid: false,
            can_chi_high: false,
            can_pon: false,
            can_daiminkan: false,
            can_kakan: false,
            can_ankan: false,
            can_tsumo_agari: false,
            can_ron_agari: false,
            can_ryukyoku: false,
        }
    }

    /// Some sequence call is legal.
    pub open spec fn spec_can_chi(self) -> bool {
        self.can_chi_low || self.can_chi_mid || self.can_chi_high
    }

    /// Executable form of [`ActionCandidates::spec_can_chi`].
    pub fn can_chi(&self) -> (r: bool)
        ensures
            r == self.spec_can_chi(),
    {
        self.can_chi_low || self.can_chi_mid || self.can_chi_high
    }

    /// Some action category is legal: a decision point exists.
    pub open spec fn spec_can_act(self) -> bool {
        self.can_discard || self.can_riichi || self.spec_can_chi() || self.can_pon
            || self.can_daiminkan || self.can_kakan || self.can_ankan || self.can_tsumo_agari
            || self.can_ron_agari || self.can_ryukyoku
    }

    /// Executable form of [`ActionCandidates::spec_can_act`].
    pub fn can_act(&self) -> (r: bool)
        ensures
            r == self.spec_can_act(),
    {
        self.can_discard || self.can_riichi || self.can_chi() || self.can_pon
            || self.can_daiminkan || self.can_kakan || self.can_ankan || self.can_tsumo_agari
            || self.can_ron_agari || self.can_ryukyoku
    }
}

} // verus!
