use riichi_dataset::action::ActionCandidates;
use riichi_dataset::chi::ChiType;
use riichi_dataset::config::GameplayLoader;
use riichi_dataset::events::Event;
use riichi_dataset::gameplay::Gameplay;
use riichi_dataset::trace::TrackerStep;

type Step = TrackerStep<u64, u32>;

fn none_step() -> Step {
    TrackerStep {
        cans: ActionCandidates::none(),
        at_turn: 0,
        shanten: 0,
        kakan_candidate_count: 0,
        ankan_candidate_count: 0,
        obs: 0,
        mask: 0,
        kan_obs: 0,
        kan_mask: 0,
    }
}

fn none_trace(n: usize) -> Vec<Step> {
    (0..n).map(|_| none_step()).collect()
}

fn traces_with(n: usize, seat: usize, at: usize, step: Step) -> Vec<Vec<Step>> {
    let mut traces: Vec<Vec<Step>> = (0..4).map(|_| none_trace(n)).collect();
    traces[seat][at] = step;
    traces
}

fn names4() -> Vec<String> {
    vec!["a".to_string(), "b".to_string(), "c".to_string(), "d".to_string()]
}

fn plain_config() -> GameplayLoader {
    GameplayLoader::new(1, false, None, None, false, false)
}

#[test]
fn discard_window_yields_one_discounted_record() {
    // A draw by seat 0 answered by seat 0's discard of tile 5; seat 1 never
    // reaches a decision in the same log.
    let events = vec![
        Event::StartGame { names: names4() },
        Event::Tsumo { actor: 0, pai: 0 },
        Event::Dahai { actor: 0, pai: 5, tsumogiri: false },
        Event::Tsumo { actor: 1, pai: 1 },
        Event::EndKyoku,
    ];
    let mut step = none_step();
    step.cans.can_discard = true;
    step.at_turn = 1;
    step.shanten = 3;
    step.obs = 11;
    step.mask = 7;
    let traces = traces_with(events.len(), 0, 1, step);
    let config = plain_config();
    let out = config.load_events(&events, &traces, 9u8).unwrap();
    assert_eq!(out.len(), 4);
    let mut g0 = out.into_iter().next().unwrap();
    assert_eq!(g0.take_player_id(), 0);
    assert_eq!(g0.take_actions(), vec![5i64]);
    assert_eq!(g0.take_apply_gamma(), vec![true]);
    assert_eq!(g0.take_at_kyoku(), vec![0u8]);
    assert_eq!(g0.take_dones(), vec![true]);
    assert_eq!(g0.take_at_turns(), vec![1u8]);
    assert_eq!(g0.take_shantens(), vec![3i8]);
    assert_eq!(g0.take_obs(), vec![11u64]);
    assert_eq!(g0.take_masks(), vec![7u32]);
    assert_eq!(g0.take_grp(), Some(9u8));
    assert_eq!(g0.take_grp(), None);
    assert_eq!(g0.player_name, "a".to_string());

    let events2 = vec![
        Event::StartGame { names: names4() },
        Event::Tsumo { actor: 0, pai: 0 },
        Event::Dahai { actor: 0, pai: 5, tsumogiri: false },
        Event::Tsumo { actor: 1, pai: 1 },
        Event::EndKyoku,
    ];
    let traces2: Vec<Vec<Step>> = (0..4).map(|_| none_trace(events2.len())).collect();
    let out2 = config.load_events(&events2, &traces2, 9u8).unwrap();
    let mut g1 = out2.into_iter().nth(1).unwrap();
    assert_eq!(g1.take_actions(), Vec::<i64>::new());
    assert_eq!(g1.take_dones(), Vec::<bool>::new());
}

#[test]
fn ankan_with_two_candidates_emits_split_records() {
    // A self-declared quad with two legal tile candidates and the
    // always-split flag off: primary quad record plus the resolved tile.
    let events = vec![
        Event::StartGame { names: names4() },
        Event::Tsumo { actor: 0, pai: 4 },
        Event::Ankan { actor: 0, consumed: [4, 4, 4, 4] },
        Event::Tsumo { actor: 0, pai: 30 },
        Event::Dahai { actor: 0, pai: 30, tsumogiri: true },
    ];
    let mut step = none_step();
    step.cans.can_ankan = true;
    step.cans.can_discard = true;
    step.ankan_candidate_count = 2;
    step.obs = 21;
    step.kan_obs = 22;
    step.mask = 31;
    step.kan_mask = 32;
    let traces = traces_with(events.len(), 0, 1, step);
    let config = plain_config();
    let out = config.load_events(&events, &traces, 9u8).unwrap();
    let mut g0 = out.into_iter().next().unwrap();
    assert_eq!(g0.take_actions(), vec![42i64, 4i64]);
    assert_eq!(g0.take_obs(), vec![21u64, 22u64]);
    assert_eq!(g0.take_masks(), vec![31u32, 32u32]);
    assert_eq!(g0.take_apply_gamma(), vec![false, true]);
    assert_eq!(g0.take_dones(), vec![false, true]);
}

#[test]
fn ankan_with_one_candidate_emits_single_record() {
    let events = vec![
        Event::StartGame { names: names4() },
        Event::Tsumo { actor: 0, pai: 4 },
        Event::Ankan { actor: 0, consumed: [4, 4, 4, 4] },
        Event::Tsumo { actor: 0, pai: 30 },
        Event::Dahai { actor: 0, pai: 30, tsumogiri: true },
    ];
    let mut step = none_step();
    step.cans.can_ankan = true;
    step.cans.can_discard = true;
    step.ankan_candidate_count = 1;
    let traces = traces_with(events.len(), 0, 1, step);
    let config = plain_config();
    let out = config.load_events(&events, &traces, 9u8).unwrap();
    let mut g0 = out.into_iter().next().unwrap();
    assert_eq!(g0.take_actions(), vec![42i64]);
}

#[test]
fn always_split_flag_forces_kan_select_record() {
    let events = vec![
        Event::StartGame { names: names4() },
        Event::Tsumo { actor: 0, pai: 4 },
        Event::Ankan { actor: 0, consumed: [35, 13, 13, 13] },
        Event::Tsumo { actor: 0, pai: 30 },
        Event::Dahai { actor: 0, pai: 30, tsumogiri: true },
    ];
    let mut step = none_step();
    step.cans.can_ankan = true;
    step.ankan_candidate_count = 1;
    let traces = traces_with(events.len(), 0, 1, step);
    let config = GameplayLoader::new(1, false, None, None, false, true);
    let out = config.load_events(&events, &traces, 9u8).unwrap();
    let mut g0 = out.into_iter().next().unwrap();
    // The red five (id 35) collapses to its plain counterpart (id 13).
    assert_eq!(g0.take_actions(), vec![42i64, 13i64]);
}

#[test]
fn chi_type_classifies_called_tile_rank() {
    assert_eq!(ChiType::new([5, 6], 4), ChiType::Low);
    assert_eq!(ChiType::new([3, 5], 4), ChiType::Mid);
    assert_eq!(ChiType::new([2, 3], 4), ChiType::High);
    // Red five (id 34) counts as the plain five (id 4).
    assert_eq!(ChiType::new([34, 5], 3), ChiType::Low);
    assert_eq!(ChiType::new([2, 3], 34), ChiType::High);
}

#[test]
fn chi_call_labels_by_run_position() {
    let events = vec![
        Event::StartGame { names: names4() },
        Event::Dahai { actor: 3, pai: 10, tsumogiri: false },
        Event::Chi { actor: 0, target: 3, pai: 10, consumed: [11, 12] },
        Event::Dahai { actor: 0, pai: 20, tsumogiri: false },
        Event::EndKyoku,
    ];
    let mut step = none_step();
    step.cans.can_chi_low = true;
    let traces = traces_with(events.len(), 0, 1, step);
    let config = plain_config();
    let out = config.load_events(&events, &traces, 9u8).unwrap();
    let mut g0 = out.into_iter().next().unwrap();
    // Called tile 10 with consumed 11 and 12: the low end of the run.
    assert_eq!(g0.take_actions(), vec![38i64]);
}

#[test]
fn reach_label_is_discount_eligible() {
    let events = vec![
        Event::StartGame { names: names4() },
        Event::Tsumo { actor: 0, pai: 0 },
        Event::Reach { actor: 0 },
        Event::Dahai { actor: 0, pai: 0, tsumogiri: false },
        Event::ReachAccepted { actor: 0 },
    ];
    let mut step = none_step();
    step.cans.can_riichi = true;
    step.cans.can_discard = true;
    let traces = traces_with(events.len(), 0, 1, step);
    let config = plain_config();
    let out = config.load_events(&events, &traces, 9u8).unwrap();
    let mut g0 = out.into_iter().next().unwrap();
    assert_eq!(g0.take_actions(), vec![37i64]);
    assert_eq!(g0.take_apply_gamma(), vec![true]);
}

#[test]
fn interstitial_events_are_skipped_for_lookahead() {
    // The event after the draw is a new-indicator reveal; the substantive
    // lookahead is the discard behind it.
    let events = vec![
        Event::StartGame { names: names4() },
        Event::Tsumo { actor: 0, pai: 0 },
        Event::Dora { dora_marker: 8 },
        Event::Dahai { actor: 0, pai: 9, tsumogiri: false },
        Event::EndKyoku,
    ];
    let mut step = none_step();
    step.cans.can_discard = true;
    let traces = traces_with(events.len(), 0, 1, step);
    let config = plain_config();
    let out = config.load_events(&events, &traces, 9u8).unwrap();
    let mut g0 = out.into_iter().next().unwrap();
    assert_eq!(g0.take_actions(), vec![9i64]);
}

#[test]
fn declined_pon_labels_pass() {
    let events = vec![
        Event::StartGame { names: names4() },
        Event::Dahai { actor: 1, pai: 10, tsumogiri: false },
        Event::Tsumo { actor: 2, pai: 3 },
        Event::Dahai { actor: 2, pai: 3, tsumogiri: true },
        Event::EndKyoku,
    ];
    let mut step = none_step();
    step.cans.can_pon = true;
    let traces = traces_with(events.len(), 0, 1, step);
    let config = plain_config();
    let out = config.load_events(&events, &traces, 9u8).unwrap();
    let mut g0 = out.into_iter().next().unwrap();
    assert_eq!(g0.take_actions(), vec![45i64]);
    assert_eq!(g0.take_apply_gamma(), vec![false]);
}

#[test]
fn win_by_call_labels_ron() {
    let events = vec![
        Event::StartGame { names: names4() },
        Event::Dahai { actor: 1, pai: 10, tsumogiri: false },
        Event::Hora { actor: 2, target: 1 },
        Event::Hora { actor: 0, target: 1 },
        Event::EndKyoku,
    ];
    let mut step = none_step();
    step.cans.can_ron_agari = true;
    let traces = traces_with(events.len(), 0, 1, step);
    let config = plain_config();
    let out = config.load_events(&events, &traces, 9u8).unwrap();
    let mut g0 = out.into_iter().next().unwrap();
    assert_eq!(g0.take_actions(), vec![43i64]);
}

#[test]
fn superseded_opportunity_emits_nothing() {
    // Another participant's call-based win supersedes the pon opportunity:
    // no record at all.
    let events = vec![
        Event::StartGame { names: names4() },
        Event::Dahai { actor: 1, pai: 10, tsumogiri: false },
        Event::Hora { actor: 2, target: 1 },
        Event::EndKyoku,
        Event::EndGame,
    ];
    let mut step = none_step();
    step.cans.can_pon = true;
    let traces = traces_with(events.len(), 0, 1, step);
    let config = plain_config();
    let out = config.load_events(&events, &traces, 9u8).unwrap();
    let mut g0 = out.into_iter().next().unwrap();
    assert_eq!(g0.take_actions(), Vec::<i64>::new());
}

#[test]
fn round_boundaries_set_done_flags() {
    // One decision in each of two rounds: both records are boundaries.
    let events = vec![
        Event::StartGame { names: names4() },
        Event::Tsumo { actor: 0, pai: 0 },
        Event::Dahai { actor: 0, pai: 1, tsumogiri: false },
        Event::EndKyoku,
        Event::Tsumo { actor: 0, pai: 2 },
        Event::Dahai { actor: 0, pai: 2, tsumogiri: true },
        Event::EndKyoku,
        Event::EndGame,
    ];
    let mut step = none_step();
    step.cans.can_discard = true;
    let mut traces = traces_with(events.len(), 0, 1, step);
    traces[0][4] = step;
    let config = plain_config();
    let out = config.load_events(&events, &traces, 9u8).unwrap();
    let mut g0 = out.into_iter().next().unwrap();
    assert_eq!(g0.take_actions(), vec![1i64, 2i64]);
    assert_eq!(g0.take_at_kyoku(), vec![0u8, 1u8]);
    assert_eq!(g0.take_dones(), vec![true, true]);
}

#[test]
fn rescan_yields_identical_columns() {
    // The scan is a pure function of log, configuration and trace.
    let events = vec![
        Event::StartGame { names: names4() },
        Event::Tsumo { actor: 0, pai: 0 },
        Event::Dahai { actor: 0, pai: 5, tsumogiri: false },
        Event::Tsumo { actor: 1, pai: 1 },
        Event::EndKyoku,
    ];
    let mut step = none_step();
    step.cans.can_discard = true;
    step.obs = 9;
    let traces = traces_with(events.len(), 0, 1, step);
    let config = plain_config();
    let trace0 = &traces[0];
    let mut g1: Gameplay<u64, u32, u8> =
        Gameplay::load_events_by_player(&config, &events, 0, trace0, 9u8);
    let mut g2: Gameplay<u64, u32, u8> =
        Gameplay::load_events_by_player(&config, &events, 0, trace0, 9u8);
    assert_eq!(g1.take_actions(), g2.take_actions());
    assert_eq!(g1.take_obs(), g2.take_obs());
    assert_eq!(g1.take_masks(), g2.take_masks());
    assert_eq!(g1.take_at_kyoku(), g2.take_at_kyoku());
    assert_eq!(g1.take_dones(), g2.take_dones());
    assert_eq!(g1.take_apply_gamma(), g2.take_apply_gamma());
    assert_eq!(g1.take_at_turns(), g2.take_at_turns());
    assert_eq!(g1.take_shantens(), g2.take_shantens());
    assert_eq!(g1.player_name, g2.player_name);
}

#[test]
fn draining_a_column_is_one_shot() {
    let events = vec![
        Event::StartGame { names: names4() },
        Event::Tsumo { actor: 0, pai: 0 },
        Event::Dahai { actor: 0, pai: 5, tsumogiri: false },
        Event::Tsumo { actor: 1, pai: 1 },
        Event::EndKyoku,
    ];
    let mut step = none_step();
    step.cans.can_discard = true;
    let traces = traces_with(events.len(), 0, 1, step);
    let config = plain_config();
    let out = config.load_events(&events, &traces, 9u8).unwrap();
    let mut g0 = out.into_iter().next().unwrap();
    assert_eq!(g0.take_actions(), vec![5i64]);
    assert_eq!(g0.take_actions(), Vec::<i64>::new());
}

#[test]
fn oracle_mode_requests_wall_indexed_encodings() {
    // A quad sends the next draw to the dead wall: the privileged request at
    // the decision after that draw carries one live-wall and one dead-wall
    // draw.
    let events = vec![
        Event::StartGame { names: names4() },
        Event::Tsumo { actor: 0, pai: 4 },
        Event::Ankan { actor: 0, consumed: [4, 4, 4, 4] },
        Event::Tsumo { actor: 0, pai: 30 },
        Event::Dahai { actor: 0, pai: 30, tsumogiri: true },
        Event::EndKyoku,
        Event::EndGame,
    ];
    let mut step = none_step();
    step.cans.can_discard = true;
    let traces = traces_with(events.len(), 0, 3, step);
    let config = GameplayLoader::new(1, true, None, None, false, false);
    let out = config.load_events(&events, &traces, 9u8).unwrap();
    let mut g0 = out.into_iter().next().unwrap();
    assert_eq!(g0.take_actions(), vec![30i64]);
    let inv = g0.take_invisible_obs();
    assert_eq!(inv.len(), 1);
    assert_eq!(inv[0].at_event, 3);
    assert_eq!(inv[0].kyoku_idx, 0);
    assert_eq!(inv[0].yama_idx, 1);
    assert_eq!(inv[0].rinshan_idx, 1);
}

#[test]
fn kakan_emits_split_by_candidate_count() {
    let events = vec![
        Event::StartGame { names: names4() },
        Event::Tsumo { actor: 0, pai: 13 },
        Event::Kakan { actor: 0, pai: 35, consumed: [13, 13, 13] },
        Event::Tsumo { actor: 0, pai: 30 },
        Event::Dahai { actor: 0, pai: 30, tsumogiri: true },
    ];
    let mut step = none_step();
    step.cans.can_kakan = true;
    step.kakan_candidate_count = 2;
    let traces = traces_with(events.len(), 0, 1, step);
    let config = plain_config();
    let out = config.load_events(&events, &traces, 9u8).unwrap();
    let mut g0 = out.into_iter().next().unwrap();
    // The extended quad's red five collapses to the plain five (id 13).
    assert_eq!(g0.take_actions(), vec![42i64, 13i64]);
}

#[test]
fn daiminkan_by_this_seat_labels_kan() {
    let events = vec![
        Event::StartGame { names: names4() },
        Event::Dahai { actor: 1, pai: 8, tsumogiri: false },
        Event::Daiminkan { actor: 0, target: 1, pai: 8, consumed: [8, 8, 8] },
        Event::Tsumo { actor: 0, pai: 30 },
        Event::Dahai { actor: 0, pai: 30, tsumogiri: true },
    ];
    let mut step = none_step();
    step.cans.can_daiminkan = true;
    let traces = traces_with(events.len(), 0, 1, step);
    let config = plain_config();
    let out = config.load_events(&events, &traces, 9u8).unwrap();
    let mut g0 = out.into_iter().next().unwrap();
    // The claimed-from-discard quad never gates on a candidate count, and
    // without the always-split flag no sub-record is emitted.
    assert_eq!(g0.take_actions(), vec![42i64]);
}

#[test]
fn entitled_abortive_draw_labels_ryukyoku() {
    let events = vec![
        Event::StartGame { names: names4() },
        Event::Tsumo { actor: 0, pai: 0 },
        Event::Ryukyoku,
        Event::EndKyoku,
        Event::EndGame,
    ];
    let mut step = none_step();
    step.cans.can_discard = true;
    step.cans.can_ryukyoku = true;
    let traces = traces_with(events.len(), 0, 1, step);
    let config = plain_config();
    let out = config.load_events(&events, &traces, 9u8).unwrap();
    let mut g0 = out.into_iter().next().unwrap();
    assert_eq!(g0.take_actions(), vec![44i64]);
    assert_eq!(g0.take_apply_gamma(), vec![false]);
}

#[test]
fn unentitled_abortive_draw_emits_nothing() {
    let events = vec![
        Event::StartGame { names: names4() },
        Event::Tsumo { actor: 0, pai: 0 },
        Event::Ryukyoku,
        Event::EndKyoku,
        Event::EndGame,
    ];
    let mut step = none_step();
    step.cans.can_discard = true;
    let traces = traces_with(events.len(), 0, 1, step);
    let config = plain_config();
    let out = config.load_events(&events, &traces, 9u8).unwrap();
    let mut g0 = out.into_iter().next().unwrap();
    assert_eq!(g0.take_actions(), Vec::<i64>::new());
}
