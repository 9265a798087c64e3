//! The immutable loader configuration: protocol version, privileged-view
//! mode, participant filters, and the compound-quad split policy.
use vstd::prelude::*;
use crate::names::{NameSet, no_dup_names, sorted_names};

verus! {

/// Parameters controlling dataset semantics, fixed at construction.
pub struct GameplayLoader {
    /// Protocol version the feature encodings are requested with.
    pub version: u32,
    /// Whether privileged (hidden-information) views are requested.
    pub oracle: bool,
    /// Allow-list: when non-empty, only these participants are selected and
    /// the deny-list is ignored entirely.
    pub player_names: NameSet,
    /// Deny-list: consulted only when the allow-list is empty.
    pub excludes: NameSet,
    /// Whether the hidden-information reconstruction may trust the log's seed.
    pub trust_seed: bool,
    /// Whether a quad decision always emits the "which tile" sub-record.
    pub always_include_kan_select: bool,
}

/// Whether a participant with this name is selected: allow-list membership
/// when the allow-list is non-empty; otherwise deny-list non-membership when
/// the deny-list is non-empty; otherwise every name is selected.
pub open spec fn spec_select(cfg: &GameplayLoader, name: Seq<char>) -> bool {
    if cfg.player_names.names().len() > 0 {
        cfg.player_names.spec_contains(name)
    } else if cfg.excludes.names().len() > 0 {
        !cfg.excludes.spec_contains(name)
    } else {
        true
    }
}

impl GameplayLoader {
    /// Both filter sets are well formed.
    pub open spec fn wf(&self) -> bool {
        self.player_names.wf() && self.excludes.wf()
    }

    /// Builds a configuration; both name lists are deduplicated and sorted
    /// ascending before the membership structures are built, and a missing
    /// list means an empty one.
    pub fn new(
        version: u32,
        oracle: bool,
        player_names: Option<Vec<String>>,
        excludes: Option<Vec<String>>,
        trust_seed: bool,
        always_include_kan_select: bool,
    ) -> (cfg: GameplayLoader)
        ensures
            cfg.wf(),
            cfg.version == version,
            cfg.oracle == oracle,
            cfg.trust_seed == trust_seed,
            cfg.always_include_kan_select == always_include_kan_select,
            sorted_names(cfg.player_names.names()),
            sorted_names(cfg.excludes.names()),
            no_dup_names(cfg.player_names.names()),
            no_dup_names(cfg.excludes.names()),
            forall|x: Seq<char>|
                cfg.player_names.names().contains(x) <==> (match player_names {
                    Some(v) => v@.map_values(|k: String| k@),
                    None => Seq::empty(),
                }).contains(x),
            forall|x: Seq<char>|
                cfg.excludes.names().contains(x) <==> (match excludes {
                    Some(v) => v@.map_values(|k: String| k@),
                    None => Seq::empty(),
                }).contains(x),
    {
        let allow_raw = match player_names {
            Some(v) => v,
            None => Vec::new(),
        };
        let deny_raw = match excludes {
            Some(v) => v,
            None => Vec::new(),
        };
        proof {
            assert(Seq::<String>::empty().map_values(|k: String| k@) =~= Seq::<Seq<char>>::empty());
        }
        GameplayLoader {
            version,
            oracle,
            player_names: NameSet::new(allow_raw),
            excludes: NameSet::new(deny_raw),
            trust_seed,
            always_include_kan_select,
        }
    }

    /// Whether the participant with this display name is selected for
    /// scanning.
    pub fn select(&self, name: &str) -> (r: bool)
        requires
            self.wf(),
        ensures
            r == spec_select(self, name@),
    {
        if !self.player_names.is_empty() {
            self.player_names.contains(name)
        } else if !self.excludes.is_empty() {
            !self.excludes.contains(name)
        } else {
            true
        }
    }
}

/// A non-empty allow-list decides selection alone: two configurations with
/// the same allow-list select exactly the same names, whatever either
/// deny-list holds.
pub proof fn lemma_allow_list_precedence(a: &GameplayLoader, b: &GameplayLoader, name: Seq<char>)
    requires
        a.player_names.names() == b.player_names.names(),
        a.player_names.names().len() > 0,
    ensures
        spec_select(a, name) == spec_select(b, name),
{
}

} // verus!
