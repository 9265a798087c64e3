//! The event-window scanner: one participant's full event sequence is
//! consumed once, strictly in order, and every decision point emits one
//! record (or two, for a split quad decision). The whole pass is specified
//! by a recursive function over the event list, and the executable scanner
//! is proved to produce exactly that record sequence.
//!
//! All lookahead is bounded by the four-event window: positions within the
//! last three events are never a window's current event, and the
//! win-by-call scan reaches at most three events ahead. On protocol-shaped
//! streams this loses nothing — a round's win declarations follow the
//! decisive discard immediately and a round-end event closes them out
//! within the window.
use vstd::prelude::*;
use crate::action::{
    ActionCandidates, LABEL_CHI_HIGH, LABEL_CHI_LOW, LABEL_CHI_MID, LABEL_KAN, LABEL_PASS,
    LABEL_PON, LABEL_REACH, LABEL_RON, LABEL_RYUKYOKU,
};
use crate::chi::{ChiType, spec_chi_type};
use crate::config::GameplayLoader;
use crate::events::{Event, spec_deaka, wf_event, wf_events};
use crate::gameplay::{Gameplay, RecV, dones_of, make_rec};
use crate::trace::TrackerStep;

verus! {

/// The per-(game, participant) cursor: round index and, for privileged
/// views, the wall-position counters and the dead-wall flag. Created once
/// per scan and mutated once per event.
pub struct LoaderContext {
    /// Rounds completed so far.
    pub kyoku_idx: usize,
    /// Whether the previous quad declaration makes the next draw come from
    /// the dead wall.
    pub from_rinshan: bool,
    /// Live-wall draws seen in the current round.
    pub yama_idx: usize,
    /// Dead-wall draws seen in the current round.
    pub rinshan_idx: usize,
}

/// The cursor a scan starts from.
pub open spec fn init_ctx() -> LoaderContext {
    LoaderContext { kyoku_idx: 0, from_rinshan: false, yama_idx: 0, rinshan_idx: 0 }
}

/// The per-event bookkeeping transition, applied before the decision at the
/// same position is evaluated: a round end advances the round index and
/// resets the wall counters and the dead-wall flag; a draw advances the
/// counter the dead-wall flag points at and clears it; any quad declaration
/// sets the flag, so the declarer's next draw counts against the dead wall.
pub open spec fn bookkeep(c: LoaderContext, cur: Event) -> LoaderContext {
    match cur {
        Event::EndKyoku => LoaderContext {
            kyoku_idx: (c.kyoku_idx + 1) as usize,
            from_rinshan: false,
            yama_idx: 0,
            rinshan_idx: 0,
        },
        Event::Tsumo { .. } => if c.from_rinshan {
            LoaderContext {
                rinshan_idx: (c.rinshan_idx + 1) as usize,
                from_rinshan: false,
                ..c
            }
        } else {
            LoaderContext { yama_idx: (c.yama_idx + 1) as usize, ..c }
        },
        Event::Ankan { .. } => LoaderContext { from_rinshan: true, ..c },
        Event::Kakan { .. } => LoaderContext { from_rinshan: true, ..c },
        Event::Daiminkan { .. } => LoaderContext { from_rinshan: true, ..c },
        _ => c,
    }
}

/// The participant's display name after one more event: a game-start event
/// records the name at the participant's seat, every other event leaves it.
pub open spec fn name_after(cur: Event, pid: u8, name: Seq<char>) -> Seq<char> {
    match cur {
        Event::StartGame { names } => names@[pid as int]@,
        _ => name,
    }
}

/// The display name after the first `i` events.
pub open spec fn name_upto(events: Seq<Event>, pid: u8, i: int) -> Seq<char>
    decreases i,
{
    if i <= 0 {
        Seq::empty()
    } else {
        name_after(events[i - 1], pid, name_upto(events, pid, i - 1))
    }
}

/// How many windows a log of this length offers the scanner.
pub open spec fn window_count(len: int) -> int {
    if len >= 4 {
        len - 3
    } else {
        0
    }
}

/// The substantive lookahead event: purely informational interstitial events
/// (a reach acceptance, a new-indicator reveal) are skipped over once.
pub open spec fn spec_next_substantive(w1: Event, w2: Event) -> Event {
    match w1 {
        Event::ReachAccepted { .. } => w2,
        Event::Dora { .. } => w2,
        _ => w1,
    }
}

/// Whether this event is a win declared by the given seat.
pub open spec fn is_hora_by(e: Event, pid: u8) -> bool {
    match e {
        Event::Hora { actor, .. } => actor == pid,
        _ => false,
    }
}

/// Whether the participant appears as a winner in the rest of the window
/// before a round-end boundary.
pub open spec fn pov_wins_by_call(pid: u8, w1: Event, w2: Event, w3: Event) -> bool {
    if w1 is EndKyoku {
        false
    } else if is_hora_by(w1, pid) {
        true
    } else if w2 is EndKyoku {
        false
    } else if is_hora_by(w2, pid) {
        true
    } else if w3 is EndKyoku {
        false
    } else {
        is_hora_by(w3, pid)
    }
}

/// The label when no direct action matched the lookahead: a win by call if
/// the participant wins before the round boundary; otherwise a pass, either
/// for a sequence-call opportunity silently declined (the next substantive
/// event is simply another draw) or for a triplet/quad-claim/call-win
/// opportunity that no other participant's call-based win superseded. The
/// win scan looks at the three events behind the current one and requires
/// the win chain to open at the very next event — the window's whole reach,
/// which covers every protocol-shaped stream, where consecutive win
/// declarations directly follow the discard they claim.
pub open spec fn spec_fallthrough(
    pid: u8,
    cans: ActionCandidates,
    w1: Event,
    w2: Event,
    w3: Event,
    next: Event,
) -> Option<u8> {
    let has_any_ron = w1 is Hora;
    if has_any_ron && pov_wins_by_call(pid, w1, w2, w3) {
        Some(LABEL_RON)
    } else if (cans.spec_can_chi() && next is Tsumo) || ((cans.can_pon || cans.can_daiminkan
        || cans.can_ron_agari) && !has_any_ron) {
        Some(LABEL_PASS)
    } else {
        None
    }
}

/// The three sequence-call labels, by the called tile's rank in the run.
pub open spec fn chi_label(consumed: [u8; 2], pai: u8) -> u8 {
    match spec_chi_type(consumed, pai) {
        ChiType::Low => LABEL_CHI_LOW,
        ChiType::Mid => LABEL_CHI_MID,
        ChiType::High => LABEL_CHI_HIGH,
    }
}

/// A window's derived labels: the primary label, if any, and the optional
/// "which tile" sub-decision label of a quad.
pub ghost struct LabelPair {
    pub label: Option<u8>,
    pub kan_select: Option<u8>,
}

/// Label derivation for one window, evaluated against the substantive
/// lookahead event in priority order: discard, reach, sequence call, triplet
/// call, quad declaration (with the sub-decision emission rule), legally
/// entitled abortive draw, and finally the pass / win-by-call fallthrough.
pub open spec fn window_labels<F, M>(
    always_kan: bool,
    pid: u8,
    step: TrackerStep<F, M>,
    w1: Event,
    w2: Event,
    w3: Event,
) -> LabelPair {
    let next = spec_next_substantive(w1, w2);
    match next {
        Event::Dahai { pai, .. } => LabelPair { label: Some(pai), kan_select: None },
        Event::Reach { .. } => LabelPair { label: Some(LABEL_REACH), kan_select: None },
        Event::Chi { actor, pai, consumed, .. } => if actor == pid {
            LabelPair { label: Some(chi_label(consumed, pai)), kan_select: None }
        } else {
            LabelPair {
                label: spec_fallthrough(pid, step.cans, w1, w2, w3, next),
                kan_select: None,
            }
        },
        Event::Pon { actor, .. } => if actor == pid {
            LabelPair { label: Some(LABEL_PON), kan_select: None }
        } else {
            LabelPair {
                label: spec_fallthrough(pid, step.cans, w1, w2, w3, next),
                kan_select: None,
            }
        },
        Event::Daiminkan { actor, pai, .. } => if actor == pid {
            LabelPair {
                label: Some(LABEL_KAN),
                kan_select: if always_kan {
                    Some(spec_deaka(pai))
                } else {
                    None
                },
            }
        } else {
            LabelPair {
                label: spec_fallthrough(pid, step.cans, w1, w2, w3, next),
                kan_select: None,
            }
        },
        Event::Kakan { pai, .. } => LabelPair {
            label: Some(LABEL_KAN),
            kan_select: if always_kan || step.kakan_candidate_count > 1 {
                Some(spec_deaka(pai))
            } else {
                None
            },
        },
        Event::Ankan { consumed, .. } => LabelPair {
            label: Some(LABEL_KAN),
            kan_select: if always_kan || step.ankan_candidate_count > 1 {
                Some(spec_deaka(consumed[0]))
            } else {
                None
            },
        },
        Event::Ryukyoku => if step.cans.can_ryukyoku {
            LabelPair { label: Some(LABEL_RYUKYOKU), kan_select: None }
        } else {
            LabelPair {
                label: spec_fallthrough(pid, step.cans, w1, w2, w3, next),
                kan_select: None,
            }
        },
        _ => LabelPair {
            label: spec_fallthrough(pid, step.cans, w1, w2, w3, next),
            kan_select: None,
        },
    }
}

/// The records one window emits: none when the tracker reports no legal
/// action or no label condition matches; one for the primary label; a second
/// one for the quad-tile sub-decision when its emission rule applies.
pub open spec fn window_records<F, M>(
    oracle: bool,
    always_kan: bool,
    pid: u8,
    at_event: usize,
    c: LoaderContext,
    step: TrackerStep<F, M>,
    w1: Event,
    w2: Event,
    w3: Event,
) -> Seq<RecV<F, M>> {
    if !step.cans.spec_can_act() {
        Seq::empty()
    } else {
        let lp = window_labels(always_kan, pid, step, w1, w2, w3);
        match lp.label {
            None => Seq::empty(),
            Some(l) => {
                let first = make_rec(
                    oracle,
                    false,
                    l as int,
                    c.kyoku_idx as int,
                    at_event,
                    c.yama_idx,
                    c.rinshan_idx,
                    step,
                );
                match lp.kan_select {
                    None => seq![first],
                    Some(k) => seq![
                        first,
                        make_rec(
                            oracle,
                            true,
                            k as int,
                            c.kyoku_idx as int,
                            at_event,
                            c.yama_idx,
                            c.rinshan_idx,
                            step,
                        ),
                    ],
                }
            },
        }
    }
}

/// The record sequence the scan emits from window `i` onward, starting from
/// cursor `c`: per window, the bookkeeping transition is applied first and
/// the window's records are derived from the tracker's answers at that
/// position.
pub open spec fn scan_from<F, M>(
    oracle: bool,
    always_kan: bool,
    pid: u8,
    events: Seq<Event>,
    trace: Seq<TrackerStep<F, M>>,
    c: LoaderContext,
    i: int,
) -> Seq<RecV<F, M>>
    decreases events.len() - i,
{
    if i < 0 || i + 4 > events.len() {
        Seq::empty()
    } else {
        let c2 = bookkeep(c, events[i]);
        window_records(
            oracle,
            always_kan,
            pid,
            i as usize,
            c2,
            trace[i],
            events[i + 1],
            events[i + 2],
            events[i + 3],
        ) + scan_from(oracle, always_kan, pid, events, trace, c2, i + 1)
    }
}

/// The record sequence a whole scan of the log emits for this participant.
pub open spec fn scan_trace<F, M>(
    oracle: bool,
    always_kan: bool,
    pid: u8,
    events: Seq<Event>,
    trace: Seq<TrackerStep<F, M>>,
) -> Seq<RecV<F, M>> {
    scan_from(oracle, always_kan, pid, events, trace, init_ctx(), 0)
}

/// Everything `load_events_by_player` promises of its result: aligned
/// columns holding exactly the specified record sequence, the episode
/// boundaries of the post-pass, the seat, and the recorded display name.
pub open spec fn gp_matches<F, M, G>(
    g: &Gameplay<F, M, G>,
    config: &GameplayLoader,
    events: Seq<Event>,
    trace: Seq<TrackerStep<F, M>>,
    pid: u8,
    grp: G,
) -> bool {
    &&& g.grp == Some(grp)
    &&& g.wf_cols(config.oracle)
    &&& g.player_id == pid
    &&& g.recs(config.oracle) == scan_trace(
        config.oracle,
        config.always_include_kan_select,
        pid,
        events,
        trace,
    )
    &&& g.dones@ == dones_of(g.at_kyoku@)
    &&& g.player_name@ == name_upto(events, pid, window_count(events.len() as int))
}

/// Executable form of [`is_hora_by`].
fn hora_by(e: &Event, pid: u8) -> (r: bool)
    ensures
        r == is_hora_by(*e, pid),
{
    match e {
        Event::Hora { actor, .. } => *actor == pid,
        _ => false,
    }
}

/// Executable form of [`pov_wins_by_call`].
fn pov_wins(pid: u8, w1: &Event, w2: &Event, w3: &Event) -> (r: bool)
    ensures
        r == pov_wins_by_call(pid, *w1, *w2, *w3),
{
    if matches!(w1, Event::EndKyoku) {
        false
    } else if hora_by(w1, pid) {
        true
    } else if matches!(w2, Event::EndKyoku) {
        false
    } else if hora_by(w2, pid) {
        true
    } else if matches!(w3, Event::EndKyoku) {
        false
    } else {
        hora_by(w3, pid)
    }
}

/// Executable form of [`spec_fallthrough`].
fn fallthrough_label(
    pid: u8,
    cans: &ActionCandidates,
    w1: &Event,
    w2: &Event,
    w3: &Event,
    next: &Event,
) -> (r: Option<u8>)
    ensures
        r == spec_fallthrough(pid, *cans, *w1, *w2, *w3, *next),
{
    let has_any_ron = matches!(w1, Event::Hora { .. });
    if has_any_ron && pov_wins(pid, w1, w2, w3) {
        Some(LABEL_RON)
    } else if (cans.can_chi() && matches!(next, Event::Tsumo { .. })) || ((cans.can_pon
        || cans.can_daiminkan || cans.can_ron_agari) && !has_any_ron) {
        Some(LABEL_PASS)
    } else {
        None
    }
}

/// Executable label derivation for one window: mirrors
/// [`window_labels`] arm for arm.
fn derive_labels<F: Copy, M: Copy>(
    config: &GameplayLoader,
    player_id: u8,
    step: &TrackerStep<F, M>,
    w1: &Event,
    w2: &Event,
    w3: &Event,
) -> (r: (Option<u8>, Option<u8>))
    ensures
        ({
            let lp = window_labels(
                config.always_include_kan_select,
                player_id,
                *step,
                *w1,
                *w2,
                *w3,
            );
            r.0 == lp.label && r.1 == lp.kan_select
        }),
{
    let next: &Event = if matches!(w1, Event::ReachAccepted { .. } | Event::Dora { .. }) {
        w2
    } else {
        w1
    };
    assert(*next == spec_next_substantive(*w1, *w2));

    let mut label_opt: Option<u8> = None;
    let mut kan_select: Option<u8> = None;
    match next {
        Event::Dahai { pai, .. } => {
            label_opt = Some(*pai);
        },
        Event::Reach { .. } => {
            label_opt = Some(LABEL_REACH);
        },
        Event::Chi { actor, pai, consumed, .. } => {
            if *actor == player_id {
                label_opt = Some(
                    match ChiType::new(*consumed, *pai) {
                        ChiType::Low => LABEL_CHI_LOW,
                        ChiType::Mid => LABEL_CHI_MID,
                        ChiType::High => LABEL_CHI_HIGH,
                    },
                );
            } else {
                label_opt = fallthrough_label(player_id, &step.cans, w1, w2, w3, next);
            }
        },
        Event::Pon { actor, .. } => {
            if *actor == player_id {
                label_opt = Some(LABEL_PON);
            } else {
                label_opt = fallthrough_label(player_id, &step.cans, w1, w2, w3, next);
            }
        },
        Event::Daiminkan { actor, pai, .. } => {
            if *actor == player_id {
                label_opt = Some(LABEL_KAN);
                if config.always_include_kan_select {
                    kan_select = Some(crate::events::deaka(*pai));
                }
            } else {
                label_opt = fallthrough_label(player_id, &step.cans, w1, w2, w3, next);
            }
        },
        Event::Kakan { pai, .. } => {
            label_opt = Some(LABEL_KAN);
            if config.always_include_kan_select || step.kakan_candidate_count > 1 {
                kan_select = Some(crate::events::deaka(*pai));
            }
        },
        Event::Ankan { consumed, .. } => {
            label_opt = Some(LABEL_KAN);
            if config.always_include_kan_select || step.ankan_candidate_count > 1 {
                kan_select = Some(crate::events::deaka(consumed[0]));
            }
        },
        Event::Ryukyoku => {
            if step.cans.can_ryukyoku {
                label_opt = Some(LABEL_RYUKYOKU);
            } else {
                label_opt = fallthrough_label(player_id, &step.cans, w1, w2, w3, next);
            }
        },
        _ => {
            label_opt = fallthrough_label(player_id, &step.cans, w1, w2, w3, next);
        },
    }
    (label_opt, kan_select)
}

impl<F: Copy, M: Copy, G: Copy> Gameplay<F, M, G> {
    /// Processes one lookahead window: performs the per-event bookkeeping on
    /// the cursor, records the display name on a game-start event, and, if
    /// the tracker reports a decision point whose label can be derived,
    /// appends the window's record(s).
    #[verifier::rlimit(100)]
    pub fn extend_from_event_window(
        &mut self,
        ctx: &mut LoaderContext,
        config: &GameplayLoader,
        at_event: usize,
        w0: &Event,
        w1: &Event,
        w2: &Event,
        w3: &Event,
        step: &TrackerStep<F, M>,
    )
        requires
            old(self).wf_cols(config.oracle),
            old(self).player_id < 4,
            wf_event(*w0),
            old(ctx).kyoku_idx < usize::MAX,
            old(ctx).yama_idx < usize::MAX,
            old(ctx).rinshan_idx < usize::MAX,
        ensures
            *final(ctx) == bookkeep(*old(ctx), *w0),
            final(self).wf_cols(config.oracle),
            final(self).recs(config.oracle) == old(self).recs(config.oracle) + window_records(
                config.oracle,
                config.always_include_kan_select,
                old(self).player_id,
                at_event,
                bookkeep(*old(ctx), *w0),
                *step,
                *w1,
                *w2,
                *w3,
            ),
            final(self).player_name@ == name_after(*w0, old(self).player_id, old(self).player_name@),
            final(self).dones == old(self).dones,
            final(self).player_id == old(self).player_id,
            final(self).grp == old(self).grp,
    {
        match w0 {
            Event::StartGame { names } => {
                self.player_name = names[self.player_id as usize].clone();
            },
            Event::EndKyoku => {
                ctx.kyoku_idx = ctx.kyoku_idx + 1;
                ctx.from_rinshan = false;
                ctx.yama_idx = 0;
                ctx.rinshan_idx = 0;
            },
            Event::Tsumo { .. } => {
                if ctx.from_rinshan {
                    ctx.rinshan_idx = ctx.rinshan_idx + 1;
                    ctx.from_rinshan = false;
                } else {
                    ctx.yama_idx = ctx.yama_idx + 1;
                }
            },
            Event::Ankan { .. } | Event::Kakan { .. } | Event::Daiminkan { .. } => {
                ctx.from_rinshan = true;
            },
            _ => {},
        }
        let ghost c2 = bookkeep(*old(ctx), *w0);
        assert(*ctx == c2);

        let ghost wr = window_records(
            config.oracle,
            config.always_include_kan_select,
            old(self).player_id,
            at_event,
            c2,
            *step,
            *w1,
            *w2,
            *w3,
        );
        if !step.cans.can_act() {
            proof {
                assert(wr =~= Seq::<RecV<F, M>>::empty());
                assert(self.recs(config.oracle) =~= old(self).recs(config.oracle) + wr);
            }
            return ;
        }
        let labels = derive_labels(config, self.player_id, step, w1, w2, w3);
        let label_opt = labels.0;
        let kan_select = labels.1;

        if let Some(label) = label_opt {
            self.add_entry(
                config.oracle,
                false,
                label,
                ctx.kyoku_idx,
                at_event,
                ctx.yama_idx,
                ctx.rinshan_idx,
                step,
            );
            if let Some(kan) = kan_select {
                self.add_entry(
                    config.oracle,
                    true,
                    kan,
                    ctx.kyoku_idx,
                    at_event,
                    ctx.yama_idx,
                    ctx.rinshan_idx,
                    step,
                );
            }
        }
        proof {
            assert(self.recs(config.oracle) =~= old(self).recs(config.oracle) + wr);
        }
    }

    /// One participant's full scan: every window of the event list in order,
    /// then the episode-boundary post-pass. The result holds exactly the
    /// record sequence of [`scan_trace`] — re-running the same log through
    /// the same configuration yields identical columns.
    pub fn load_events_by_player(
        config: &GameplayLoader,
        events: &Vec<Event>,
        player_id: u8,
        trace: &Vec<TrackerStep<F, M>>,
        grp: G,
    ) -> (g: Gameplay<F, M, G>)
        requires
            player_id < 4,
            wf_events(events@),
            trace@.len() == events@.len(),
        ensures
            gp_matches(&g, config, events@, trace@, player_id, grp),
    {
        let oracle = config.oracle;
        let ghost ak = config.always_include_kan_select;
        let mut g: Gameplay<F, M, G> = Gameplay::new(player_id, Some(grp));
        let mut ctx = LoaderContext { kyoku_idx: 0, from_rinshan: false, yama_idx: 0, rinshan_idx: 0 };
        assert(ctx == init_ctx());
        let n = events.len();
        let mut i: usize = 0;
        while n >= 4 && i <= n - 4
            invariant
                n == events@.len(),
                trace@.len() == n,
                wf_events(events@),
                player_id < 4,
                oracle == config.oracle,
                ak == config.always_include_kan_select,
                0 <= i,
                i <= window_count(n as int) || i == 0,
                ctx.kyoku_idx <= i,
                ctx.yama_idx <= i,
                ctx.rinshan_idx <= i,
                g.wf_cols(oracle),
                g.player_id == player_id,
                g.grp == Some(grp),
                g.dones@.len() == 0,
                g.player_name@ == name_upto(events@, player_id, i as int),
                g.recs(oracle) + scan_from(oracle, ak, player_id, events@, trace@, ctx, i as int)
                    == scan_trace(oracle, ak, player_id, events@, trace@),
            decreases n - i,
        {
            let ghost ctx_before = ctx;
            let ghost recs_before = g.recs(oracle);
            g.extend_from_event_window(
                &mut ctx,
                config,
                i,
                &events[i],
                &events[i + 1],
                &events[i + 2],
                &events[i + 3],
                &trace[i],
            );
            proof {
                let c2 = bookkeep(ctx_before, events@[i as int]);
                let wr = window_records(
                    oracle,
                    ak,
                    player_id,
                    i,
                    c2,
                    trace@[i as int],
                    events@[i as int + 1],
                    events@[i as int + 2],
                    events@[i as int + 3],
                );
                assert(scan_from(oracle, ak, player_id, events@, trace@, ctx_before, i as int)
                    == wr + scan_from(oracle, ak, player_id, events@, trace@, c2, i as int + 1));
                assert((recs_before + wr) + scan_from(
                    oracle,
                    ak,
                    player_id,
                    events@,
                    trace@,
                    c2,
                    i as int + 1,
                ) =~= recs_before + (wr + scan_from(
                    oracle,
                    ak,
                    player_id,
                    events@,
                    trace@,
                    c2,
                    i as int + 1,
                )));
            }
            i += 1;
        }
        proof {
            assert(scan_from(oracle, ak, player_id, events@, trace@, ctx, i as int)
                =~= Seq::<RecV<F, M>>::empty());
            assert(g.recs(oracle) + Seq::<RecV<F, M>>::empty() =~= g.recs(oracle));
            assert(i as int == window_count(n as int));
        }
        let ghost recs_done = g.recs(oracle);
        g.finalize_dones();
        proof {
            assert(g.recs(oracle) =~= recs_done);
        }
        g
    }
}

/// The discount-eligibility flag of every emitted record is true exactly
/// when the record's label code is at or below the reach code — covering
/// every discard label and the reach label, and excluding every call, quad,
/// win and pass label.
pub proof fn lemma_discount_iff_low_label<F, M>(
    oracle: bool,
    always_kan: bool,
    pid: u8,
    events: Seq<Event>,
    trace: Seq<TrackerStep<F, M>>,
    c: LoaderContext,
    i: int,
)
    ensures
        forall|k: int|
            0 <= k < scan_from(oracle, always_kan, pid, events, trace, c, i).len()
                ==> #[trigger] scan_from(oracle, always_kan, pid, events, trace, c, i)[k].apply_gamma
                == (scan_from(oracle, always_kan, pid, events, trace, c, i)[k].label
                <= LABEL_REACH),
    decreases events.len() - i,
{
    if i < 0 || i + 4 > events.len() {
    } else {
        let c2 = bookkeep(c, events[i]);
        lemma_discount_iff_low_label(oracle, always_kan, pid, events, trace, c2, i + 1);
    }
}

/// How many windows from `i` onward are decision points: positions where the
/// tracker reports a non-empty legal-action set.
pub open spec fn decision_points<F, M>(
    events_len: int,
    trace: Seq<TrackerStep<F, M>>,
    i: int,
) -> int
    decreases events_len - i,
{
    if i < 0 || i + 4 > events_len {
        0
    } else {
        (if trace[i].cans.spec_can_act() {
            1int
        } else {
            0int
        }) + decision_points(events_len, trace, i + 1)
    }
}

/// How many windows from `i` onward are quad decisions that satisfy the
/// sub-decision emission rule (and are decision points with a derived
/// label).
pub open spec fn kan_split_points<F, M>(
    always_kan: bool,
    pid: u8,
    events: Seq<Event>,
    trace: Seq<TrackerStep<F, M>>,
    i: int,
) -> int
    decreases events.len() - i,
{
    if i < 0 || i + 4 > events.len() {
        0
    } else {
        let lp = window_labels(always_kan, pid, trace[i], events[i + 1], events[i + 2], events[i + 3]);
        (if trace[i].cans.spec_can_act() && lp.label is Some && lp.kan_select is Some {
            1int
        } else {
            0int
        }) + kan_split_points(always_kan, pid, events, trace, i + 1)
    }
}

/// On a log where every decision point derives a label, the number of
/// records equals the number of decision points the tracker reports, plus
/// exactly one extra record for every quad decision that satisfies the
/// sub-decision emission rule.
pub proof fn lemma_record_count<F, M>(
    oracle: bool,
    always_kan: bool,
    pid: u8,
    events: Seq<Event>,
    trace: Seq<TrackerStep<F, M>>,
    c: LoaderContext,
    i: int,
)
    requires
        forall|j: int|
            i <= j && j + 4 <= events.len() && (#[trigger] trace[j].cans).spec_can_act()
                ==> window_labels(always_kan, pid, trace[j], events[j + 1], events[j + 2], events[j + 3]).label is Some,
    ensures
        scan_from(oracle, always_kan, pid, events, trace, c, i).len() == decision_points(
            events.len() as int,
            trace,
            i,
        ) + kan_split_points(always_kan, pid, events, trace, i),
    decreases events.len() - i,
{
    if i < 0 || i + 4 > events.len() {
    } else {
        let c2 = bookkeep(c, events[i]);
        lemma_record_count(oracle, always_kan, pid, events, trace, c2, i + 1);
    }
}

/// Scanning is a pure function of the log, the configuration and the
/// tracker's answers: two accumulators produced from the same inputs hold
/// identical columns.
pub proof fn lemma_rescan_identical<F, M, G>(
    g1: &Gameplay<F, M, G>,
    g2: &Gameplay<F, M, G>,
    config: &GameplayLoader,
    events: Seq<Event>,
    trace: Seq<TrackerStep<F, M>>,
    pid: u8,
    grp: G,
)
    requires
        gp_matches(g1, config, events, trace, pid, grp),
        gp_matches(g2, config, events, trace, pid, grp),
    ensures
        g1.grp == g2.grp,
        g1.obs@ == g2.obs@,
        g1.masks@ == g2.masks@,
        g1.actions@ == g2.actions@,
        g1.at_kyoku@ == g2.at_kyoku@,
        g1.apply_gamma@ == g2.apply_gamma@,
        g1.at_turns@ == g2.at_turns@,
        g1.shantens@ == g2.shantens@,
        g1.invisible_obs@ == g2.invisible_obs@,
        g1.dones@ == g2.dones@,
        g1.player_name@ == g2.player_name@,
        g1.player_id == g2.player_id,
{
    let oracle = config.oracle;
    let r1 = g1.recs(oracle);
    let r2 = g2.recs(oracle);
    assert(r1 == r2);
    assert(r1.len() == g1.actions@.len() && r2.len() == g2.actions@.len());
    let n = g1.actions@.len();
    assert forall|k: int| 0 <= k < n implies g1.obs@[k] == g2.obs@[k] by {
        assert(r1[k] == r2[k]);
    }
    assert forall|k: int| 0 <= k < n implies g1.masks@[k] == g2.masks@[k] by {
        assert(r1[k] == r2[k]);
    }
    assert forall|k: int| 0 <= k < n implies g1.actions@[k] == g2.actions@[k] by {
        assert(r1[k] == r2[k]);
        assert(g1.actions@[k] as int == g2.actions@[k] as int);
    }
    assert forall|k: int| 0 <= k < n implies g1.at_kyoku@[k] == g2.at_kyoku@[k] by {
        assert(r1[k] == r2[k]);
    }
    assert forall|k: int| 0 <= k < n implies g1.apply_gamma@[k] == g2.apply_gamma@[k] by {
        assert(r1[k] == r2[k]);
    }
    assert forall|k: int| 0 <= k < n implies g1.at_turns@[k] == g2.at_turns@[k] by {
        assert(r1[k] == r2[k]);
    }
    assert forall|k: int| 0 <= k < n implies g1.shantens@[k] == g2.shantens@[k] by {
        assert(r1[k] == r2[k]);
    }
    assert(g1.obs@ =~= g2.obs@);
    assert(g1.masks@ =~= g2.masks@);
    assert(g1.actions@ =~= g2.actions@);
    assert(g1.at_kyoku@ =~= g2.at_kyoku@);
    assert(g1.apply_gamma@ =~= g2.apply_gamma@);
    assert(g1.at_turns@ =~= g2.at_turns@);
    assert(g1.shantens@ =~= g2.shantens@);
    if oracle {
        assert forall|k: int| 0 <= k < g1.invisible_obs@.len() implies g1.invisible_obs@[k]
            == g2.invisible_obs@[k] by {
            assert(r1[k] == r2[k]);
        }
    }
    assert(g1.invisible_obs@ =~= g2.invisible_obs@);
}

} // verus!
