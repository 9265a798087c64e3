use riichi_dataset::action::ActionCandidates;
use riichi_dataset::batch::ParsedGzLog;
use riichi_dataset::batch::decompress_gz_log;
use riichi_dataset::config::GameplayLoader;
use riichi_dataset::errors::GameplayError;
use riichi_dataset::events::Event;
use riichi_dataset::trace::TrackerStep;
use std::io::Write;

type Step = TrackerStep<u64, u32>;

fn none_step() -> Step {
    TrackerStep {
        cans: ActionCandidates::none(),
        at_turn: 0,
        shanten: 0,
        kakan_candidate_count: 0,
        ankan_candidate_count: 0,
        obs: 0,
        mask: 0,
        kan_obs: 0,
        kan_mask: 0,
    }
}

fn names4() -> Vec<String> {
    vec!["a".to_string(), "b".to_string(), "c".to_string(), "d".to_string()]
}

fn small_log(filename: &str, pai: u8) -> ParsedGzLog<u64, u32, u8> {
    let events = vec![
        Event::StartGame { names: names4() },
        Event::Tsumo { actor: 0, pai: 0 },
        Event::Dahai { actor: 0, pai, tsumogiri: false },
        Event::Tsumo { actor: 1, pai: 1 },
        Event::EndKyoku,
    ];
    let mut step = none_step();
    step.cans.can_discard = true;
    let mut traces: Vec<Vec<Step>> = (0..4).map(|_| vec![none_step(); events.len()]).collect();
    traces[0][1] = step;
    ParsedGzLog { filename: filename.to_string(), events, traces, grp: 5u8 }
}

fn bad_log(filename: &str) -> ParsedGzLog<u64, u32, u8> {
    ParsedGzLog {
        filename: filename.to_string(),
        events: Vec::new(),
        traces: (0..4).map(|_| Vec::new()).collect(),
        grp: 5u8,
    }
}

#[test]
fn batch_concatenates_per_log_results_in_order() {
    let config = GameplayLoader::new(1, false, Some(vec!["a".to_string()]), None, false, false);
    let logs = vec![small_log("x.gz", 3), small_log("y.gz", 7)];
    let out = config.load_gz_log_files(&logs).unwrap();
    assert_eq!(out.len(), 2);
    let mut it = out.into_iter();
    let mut g1 = it.next().unwrap();
    let mut g2 = it.next().unwrap();
    assert_eq!(g1.take_actions(), vec![3i64]);
    assert_eq!(g2.take_actions(), vec![7i64]);
    assert_eq!(g1.take_grp(), Some(5u8));
    assert_eq!(g2.take_grp(), Some(5u8));
}

#[test]
fn corrupted_file_in_batch_fails_whole_call_naming_it() {
    let config = GameplayLoader::new(1, false, None, None, false, false);
    let logs = vec![small_log("one.gz", 3), bad_log("two.gz"), small_log("three.gz", 7)];
    let err = config.load_gz_log_files(&logs).unwrap_err();
    match err {
        GameplayError::InFile { filename, inner } => {
            assert_eq!(filename, "two.gz".to_string());
            assert!(matches!(*inner, GameplayError::MalformedLog));
        },
        _ => panic!("expected a file-context error"),
    }
}

#[test]
fn empty_log_is_malformed() {
    let config = GameplayLoader::new(1, false, None, None, false, false);
    let events: Vec<Event> = Vec::new();
    let traces: Vec<Vec<Step>> = (0..4).map(|_| Vec::new()).collect();
    let err = config.load_events(&events, &traces, 5u8).unwrap_err();
    assert!(matches!(err, GameplayError::MalformedLog));
    assert_eq!(err.describe(), "empty or invalid game log".to_string());
}

#[test]
fn log_not_opening_with_game_start_is_malformed() {
    let config = GameplayLoader::new(1, false, None, None, false, false);
    let events = vec![
        Event::Tsumo { actor: 0, pai: 0 },
        Event::Dahai { actor: 0, pai: 0, tsumogiri: true },
        Event::Tsumo { actor: 1, pai: 1 },
        Event::EndKyoku,
    ];
    let traces: Vec<Vec<Step>> = (0..4).map(|_| vec![none_step(); events.len()]).collect();
    let err = config.load_events(&events, &traces, 5u8).unwrap_err();
    assert!(matches!(err, GameplayError::MalformedLog));
}

#[test]
fn log_shorter_than_one_window_is_malformed() {
    let config = GameplayLoader::new(1, false, None, None, false, false);
    let events = vec![Event::StartGame { names: names4() }];
    let traces: Vec<Vec<Step>> = (0..4).map(|_| vec![none_step(); 1]).collect();
    let err = config.load_events(&events, &traces, 5u8).unwrap_err();
    assert!(matches!(err, GameplayError::MalformedLog));
}

#[test]
fn allow_list_selects_only_named_seats() {
    let config = GameplayLoader::new(1, false, Some(vec!["c".to_string()]), None, false, false);
    let log = small_log("x.gz", 3);
    let out = config.load_events(&log.events, &log.traces, 5u8).unwrap();
    assert_eq!(out.len(), 1);
    assert_eq!(out[0].player_id, 2);
}

#[test]
fn deny_list_excludes_named_seats() {
    let config = GameplayLoader::new(
        1,
        false,
        None,
        Some(vec!["a".to_string(), "d".to_string()]),
        false,
        false,
    );
    let log = small_log("x.gz", 3);
    let out = config.load_events(&log.events, &log.traces, 5u8).unwrap();
    assert_eq!(out.len(), 2);
    assert_eq!(out[0].player_id, 1);
    assert_eq!(out[1].player_id, 2);
}

#[test]
fn nonempty_allow_list_makes_deny_list_inert() {
    // The deny-list names the same participant as the allow-list; the
    // allow-list wins and the seat is still selected.
    let config = GameplayLoader::new(
        1,
        false,
        Some(vec!["b".to_string()]),
        Some(vec!["b".to_string()]),
        false,
        false,
    );
    let log = small_log("x.gz", 3);
    let out = config.load_events(&log.events, &log.traces, 5u8).unwrap();
    assert_eq!(out.len(), 1);
    assert_eq!(out[0].player_id, 1);
}

#[test]
fn filter_lists_are_deduplicated() {
    let config = GameplayLoader::new(
        1,
        false,
        Some(vec!["b".to_string(), "b".to_string(), "a".to_string()]),
        None,
        false,
        false,
    );
    let log = small_log("x.gz", 3);
    let out = config.load_events(&log.events, &log.traces, 5u8).unwrap();
    assert_eq!(out.len(), 2);
    assert_eq!(out[0].player_id, 0);
    assert_eq!(out[1].player_id, 1);
}

#[test]
fn gzip_roundtrip_recovers_log_text() {
    let text = "{\"type\":\"start_game\"}\n{\"type\":\"tsumo\"}\n";
    let mut enc = flate2::write::GzEncoder::new(Vec::new(), flate2::Compression::default());
    enc.write_all(text.as_bytes()).unwrap();
    let compressed = enc.finish().unwrap();
    let recovered = decompress_gz_log("log.gz", &compressed).unwrap();
    assert_eq!(recovered, text.to_string());
}

#[test]
fn corrupt_gzip_data_fails_naming_the_file() {
    let garbage: Vec<u8> = vec![1, 2, 3, 4, 5, 6, 7, 8];
    let err = decompress_gz_log("broken.gz", &garbage).unwrap_err();
    match err {
        GameplayError::InFile { filename, inner } => {
            assert_eq!(filename, "broken.gz".to_string());
            assert!(matches!(*inner, GameplayError::IoFailure { .. }));
            assert!(err_text_mentions(&GameplayError::InFile { filename, inner }, "broken.gz"));
        },
        _ => panic!("expected a file-context error"),
    }
}

fn err_text_mentions(e: &GameplayError, needle: &str) -> bool {
    e.describe().contains(needle)
}

#[test]
fn parse_failure_description_carries_the_line() {
    let e = GameplayError::ParseFailure { line: "not json".to_string() };
    assert_eq!(e.describe(), "failed to parse log line: not json".to_string());
}
