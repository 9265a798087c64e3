//! The batch orchestrator: seat selection over one log, independent
//! per-seat scans run in parallel, gzip decompression of log files, and the
//! batch-or-fail aggregation over many files.
use vstd::prelude::*;
use rayon::iter::{IntoParallelRefIterator, ParallelIterator};
use crate::config::{GameplayLoader, spec_select};
use crate::errors::GameplayError;
use crate::events::{Event, wf_events};
use crate::gameplay::Gameplay;
use crate::scan::gp_matches;
use crate::trace::TrackerStep;

verus! {

/// A log the sliding window can operate on: at least four events, opening
/// with the game-start event.
pub open spec fn valid_log(events: Seq<Event>) -> bool {
    events.len() >= 4 && events[0] is StartGame
}

/// The four display names the log's game-start event enumerates.
pub open spec fn log_names(events: Seq<Event>) -> Seq<String> {
    match events[0] {
        Event::StartGame { names } => names@,
        _ => Seq::empty(),
    }
}

/// The seats selected for scanning, in seat order: those whose display name
/// the configuration selects.
pub open spec fn selected_seats(cfg: &GameplayLoader, events: Seq<Event>) -> Seq<u8> {
    let names = log_names(events);
    (if spec_select(cfg, names[0]@) {
        seq![0u8]
    } else {
        Seq::<u8>::empty()
    }) + (if spec_select(cfg, names[1]@) {
        seq![1u8]
    } else {
        Seq::<u8>::empty()
    }) + (if spec_select(cfg, names[2]@) {
        seq![2u8]
    } else {
        Seq::<u8>::empty()
    }) + (if spec_select(cfg, names[3]@) {
        seq![3u8]
    } else {
        Seq::<u8>::empty()
    })
}

/// What a single-log load promises: one scanned accumulator per selected
/// seat, in seat order, each holding exactly its specified record sequence.
pub open spec fn seats_result_matches<F, M, G>(
    out: Seq<Gameplay<F, M, G>>,
    cfg: &GameplayLoader,
    events: Seq<Event>,
    traces: Seq<Vec<TrackerStep<F, M>>>,
    grp: G,
) -> bool {
    let sel = selected_seats(cfg, events);
    &&& out.len() == sel.len()
    &&& forall|k: int|
        0 <= k < sel.len() ==> gp_matches(
            &out[k],
            cfg,
            events,
            traces[#[trigger] sel[k] as int]@,
            sel[k],
            grp,
        )
}

/// Relies on rayon's indexed parallel iterator: one independent scan per
/// selected seat, each through the verified
/// [`Gameplay::load_events_by_player`], collected in seat-list order. The
/// scans share only read-only state, and the contract is that function's,
/// element by element.
#[verifier::external_body]
fn par_scan<F: Copy + Send + Sync, M: Copy + Send + Sync, G: Copy + Send + Sync>(
    config: &GameplayLoader,
    events: &Vec<Event>,
    traces: &Vec<Vec<TrackerStep<F, M>>>,
    idxs: &Vec<u8>,
    grp: G,
) -> (out: Vec<Gameplay<F, M, G>>)
    requires
        wf_events(events@),
        traces@.len() == 4,
        forall|s: int| 0 <= s < 4 ==> #[trigger] traces@[s]@.len() == events@.len(),
        forall|k: int| 0 <= k < idxs@.len() ==> #[trigger] idxs@[k] < 4,
    ensures
        out@.len() == idxs@.len(),
        forall|k: int|
            0 <= k < idxs@.len() ==> gp_matches(
                &out@[k],
                config,
                events@,
                traces@[#[trigger] idxs@[k] as int]@,
                idxs@[k],
                grp,
            ),
{
    idxs.par_iter()
        .map(|pid| Gameplay::load_events_by_player(config, events, *pid, &traces[*pid as usize], grp))
        .collect()
}

impl GameplayLoader {
    /// Loads one parsed log: validates the game-start event, selects the
    /// seats, and runs one independent scan per selected seat, in parallel.
    /// Fails exactly on a log the sliding window cannot operate on.
    pub fn load_events<F: Copy + Send + Sync, M: Copy + Send + Sync, G: Copy + Send + Sync>(
        &self,
        events: &Vec<Event>,
        traces: &Vec<Vec<TrackerStep<F, M>>>,
        grp: G,
    ) -> (r: Result<Vec<Gameplay<F, M, G>>, GameplayError>)
        requires
            self.wf(),
            wf_events(events@),
            traces@.len() == 4,
            forall|s: int| 0 <= s < 4 ==> #[trigger] traces@[s]@.len() == events@.len(),
        ensures
            r is Ok <==> valid_log(events@),
            r matches Ok(v) ==> seats_result_matches(v@, self, events@, traces@, grp),
            r matches Err(e) ==> e is MalformedLog,
    {
        if events.len() < 4 {
            return Err(GameplayError::MalformedLog);
        }
        let names: &Vec<String>;
        match &events[0] {
            Event::StartGame { names: n } => {
                names = n;
            },
            _ => {
                return Err(GameplayError::MalformedLog);
            },
        }
        if names.len() != 4 {
            return Err(GameplayError::MalformedLog);
        }
        let mut idxs: Vec<u8> = Vec::new();
        if self.select(names[0].as_str()) {
            idxs.push(0);
        }
        if self.select(names[1].as_str()) {
            idxs.push(1);
        }
        if self.select(names[2].as_str()) {
            idxs.push(2);
        }
        if self.select(names[3].as_str()) {
            idxs.push(3);
        }
        proof {
            assert(names@ == log_names(events@));
            assert(idxs@ =~= selected_seats(self, events@));
        }
        let out = par_scan(self, events, traces, &idxs, grp);
        proof {
            let sel = selected_seats(self, events@);
            assert forall|k: int| 0 <= k < sel.len() implies gp_matches(
                &out@[k],
                self,
                events@,
                traces@[#[trigger] sel[k] as int]@,
                sel[k],
                grp,
            ) by {
                assert(idxs@[k] == sel[k]);
            }
        }
        Ok(out)
    }
}

/// One log file's parsed contents, ready for scanning: the name it came
/// from, its event list, and the four per-seat tracker traces.
pub struct ParsedGzLog<F, M, G> {
    /// The file the log came from, for error context.
    pub filename: String,
    /// The parsed, ordered event list.
    pub events: Vec<Event>,
    /// One tracker trace per seat, each aligned with the event list.
    pub traces: Vec<Vec<TrackerStep<F, M>>>,
    /// The game's round-outcome grouping, derived by the outside extractor.
    pub grp: G,
}

impl<F, M, G> ParsedGzLog<F, M, G> {
    /// Well-formed input: well-formed events and one aligned trace per seat.
    pub open spec fn wf(&self) -> bool {
        &&& wf_events(self.events@)
        &&& self.traces@.len() == 4
        &&& forall|s: int| 0 <= s < 4 ==> #[trigger] self.traces@[s]@.len() == self.events@.len()
    }
}

/// The batch-or-fail result shape: the output is the concatenation, in
/// input order, of every log's per-seat results, and every log is valid.
pub open spec fn batch_ok<F, M, G>(
    cfg: &GameplayLoader,
    logs: Seq<ParsedGzLog<F, M, G>>,
    out: Seq<Gameplay<F, M, G>>,
) -> bool
    decreases logs.len(),
{
    if logs.len() == 0 {
        out.len() == 0
    } else {
        let cnt = selected_seats(cfg, logs[0].events@).len() as int;
        &&& valid_log(logs[0].events@)
        &&& out.len() >= cnt
        &&& seats_result_matches(out.take(cnt), cfg, logs[0].events@, logs[0].traces@, logs[0].grp)
        &&& batch_ok(cfg, logs.drop_first(), out.skip(cnt))
    }
}

proof fn lemma_batch_ok_snoc<F, M, G>(
    cfg: &GameplayLoader,
    logs: Seq<ParsedGzLog<F, M, G>>,
    out: Seq<Gameplay<F, M, G>>,
    l: ParsedGzLog<F, M, G>,
    v: Seq<Gameplay<F, M, G>>,
)
    requires
        batch_ok(cfg, logs, out),
        valid_log(l.events@),
        seats_result_matches(v, cfg, l.events@, l.traces@, l.grp),
    ensures
        batch_ok(cfg, logs.push(l), out + v),
    decreases logs.len(),
{
    let cnt = selected_seats(cfg, l.events@).len() as int;
    if logs.len() == 0 {
        assert(out.len() == 0);
        assert(out + v =~= v);
        assert(logs.push(l)[0] == l);
        assert(logs.push(l).drop_first() =~= Seq::<ParsedGzLog<F, M, G>>::empty());
        assert(v.take(cnt) =~= v);
        assert(v.skip(cnt) =~= Seq::<Gameplay<F, M, G>>::empty());
        assert(batch_ok(
            cfg,
            Seq::<ParsedGzLog<F, M, G>>::empty(),
            Seq::<Gameplay<F, M, G>>::empty(),
        ));
        assert(batch_ok(cfg, logs.push(l), out + v));
    } else {
        let cnt0 = selected_seats(cfg, logs[0].events@).len() as int;
        lemma_batch_ok_snoc(cfg, logs.drop_first(), out.skip(cnt0), l, v);
        assert(logs.push(l)[0] == logs[0]);
        assert(logs.push(l).drop_first() =~= logs.drop_first().push(l));
        assert((out + v).take(cnt0) =~= out.take(cnt0));
        assert((out + v).skip(cnt0) =~= out.skip(cnt0) + v);
        assert(batch_ok(cfg, logs.push(l), out + v));
    }
}

/// The text that a gzip stream inflates to, when it is well formed down to
/// its checksum and its contents decode as text.
pub uninterp spec fn gunzip_text_of(data: Seq<u8>) -> Option<Seq<char>>;

/// Relies on flate2's `GzDecoder` over an in-memory byte slice, read through
/// std's `Read::read_to_string`: inflating is a function of the bytes alone;
/// a corrupt stream or non-UTF-8 contents fail.
#[verifier::external_body]
fn gunzip_to_string(data: &Vec<u8>) -> (r: Option<String>)
    ensures
        r is Some <==> gunzip_text_of(data@) is Some,
        r matches Some(s) ==> s@ == gunzip_text_of(data@).unwrap(),
{
    let mut gz = flate2::read::GzDecoder::new(data.as_slice());
    let mut s = String::new();
    match std::io::Read::read_to_string(&mut gz, &mut s) {
        Ok(_) => Some(s),
        Err(_) => None,
    }
}

/// Decompresses one gzip-compressed log file into its text. A corrupt
/// stream or non-text contents fail with an error naming the file.
pub fn decompress_gz_log(filename: &str, data: &Vec<u8>) -> (r: Result<String, GameplayError>)
    ensures
        r is Ok <==> gunzip_text_of(data@) is Some,
        r matches Ok(s) ==> s@ == gunzip_text_of(data@).unwrap(),
        r matches Err(e) ==> (e matches GameplayError::InFile { filename: f, inner } && f@
            == filename@ && *inner is IoFailure),
{
    match gunzip_to_string(data) {
        Some(s) => Ok(s),
        None => Err(
            GameplayError::InFile {
                filename: filename.to_owned(),
                inner: Box::new(
                    GameplayError::IoFailure {
                        message: "failed to decompress gzip data".to_owned(),
                    },
                ),
            },
        ),
    }
}

impl GameplayLoader {
    /// Loads a collection of parsed log files as one batch: every log's
    /// selected seats are scanned independently and the results are
    /// concatenated in input order. Any invalid log fails the whole call
    /// with an error naming the first offending file, and nothing of the
    /// batch is returned.
    pub fn load_gz_log_files<F: Copy + Send + Sync, M: Copy + Send + Sync, G: Copy + Send + Sync>(
        &self,
        logs: &Vec<ParsedGzLog<F, M, G>>,
    ) -> (r: Result<Vec<Gameplay<F, M, G>>, GameplayError>)
        requires
            self.wf(),
            forall|i: int| 0 <= i < logs@.len() ==> (#[trigger] logs@[i]).wf(),
        ensures
            r is Ok <==> (forall|i: int|
                0 <= i < logs@.len() ==> valid_log(#[trigger] logs@[i].events@)),
            r matches Ok(v) ==> batch_ok(self, logs@, v@),
            r matches Err(e) ==> (exists|k: int|
                0 <= k < logs@.len() && !valid_log(#[trigger] logs@[k].events@) && (forall|j: int|
                    0 <= j < k ==> valid_log(#[trigger] logs@[j].events@)) && (e matches
                GameplayError::InFile { filename, inner } && filename@ == logs@[k].filename@
                    && *inner is MalformedLog)),
    {
        let mut out: Vec<Gameplay<F, M, G>> = Vec::new();
        let mut i: usize = 0;
        proof {
            assert(logs@.take(0) =~= Seq::<ParsedGzLog<F, M, G>>::empty());
        }
        while i < logs.len()
            invariant
                self.wf(),
                forall|t: int| 0 <= t < logs@.len() ==> (#[trigger] logs@[t]).wf(),
                0 <= i <= logs@.len(),
                forall|j: int| 0 <= j < i ==> valid_log(#[trigger] logs@[j].events@),
                batch_ok(self, logs@.take(i as int), out@),
            decreases logs@.len() - i,
        {
            let log = &logs[i];
            let ghost out_before = out@;
            match self.load_events(&log.events, &log.traces, log.grp) {
                Ok(mut v) => {
                    proof {
                        lemma_batch_ok_snoc(
                            self,
                            logs@.take(i as int),
                            out_before,
                            logs@[i as int],
                            v@,
                        );
                        assert(logs@.take(i as int + 1) =~= logs@.take(i as int).push(
                            logs@[i as int],
                        ));
                    }
                    out.append(&mut v);
                },
                Err(e) => {
                    return Err(
                        GameplayError::InFile {
                            filename: log.filename.clone(),
                            inner: Box::new(e),
                        },
                    );
                },
            }
            i += 1;
        }
        proof {
            assert(logs@.take(logs@.len() as int) =~= logs@);
        }
        Ok(out)
    }
}

} // verus!
