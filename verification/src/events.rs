//! The protocol event alphabet: a closed sum type of game-log messages, plus
//! tile-identity helpers shared by the label derivation rules.
use vstd::prelude::*;

verus! {

/// Number of distinct tile identities a discard label can name: 34 ranks plus
/// the 3 promoted ("red") variants of the rank-5 tiles.
pub const TILE_KINDS: u8 = 37;

/// One protocol message of a game log. Events are externally parsed, ordered,
/// and never mutated by the scanner. Tiles are identities in `0..TILE_KINDS`;
/// actors are seats in `0..4`.
#[derive(Clone, Debug)]
pub enum Event {
    StartGame { names: Vec<String> },
    StartKyoku,
    Tsumo { actor: u8, pai: u8 },
    Dahai { actor: u8, pai: u8, tsumogiri: bool },
    Chi { actor: u8, target: u8, pai: u8, consumed: [u8; 2] },
    Pon { actor: u8, target: u8, pai: u8, consumed: [u8; 2] },
    Daiminkan { actor: u8, target: u8, pai: u8, consumed: [u8; 3] },
    Kakan { actor: u8, pai: u8, consumed: [u8; 3] },
    Ankan { actor: u8, consumed: [u8; 4] },
    Reach { actor: u8 },
    ReachAccepted { actor: u8 },
    Dora { dora_marker: u8 },
    Hora { actor: u8, target: u8 },
    Ryukyoku,
    EndKyoku,
    EndGame,
}

/// A well-formed event: every tile field names a real tile identity and every
/// game-start enumerates one name per seat. The protocol event source
/// guarantees this of everything it hands over.
pub open spec fn wf_event(e: Event) -> bool {
    match e {
        Event::StartGame { names } => names.len() == 4,
        Event::Tsumo { pai, .. } => pai < TILE_KINDS,
        Event::Dahai { pai, .. } => pai < TILE_KINDS,
        Event::Chi { pai, consumed, .. } => pai < TILE_KINDS && consumed[0] < TILE_KINDS && consumed[1] < TILE_KINDS,
        Event::Pon { pai, consumed, .. } => pai < TILE_KINDS && consumed[0] < TILE_KINDS && consumed[1] < TILE_KINDS,
        Event::Daiminkan { pai, consumed, .. } => pai < TILE_KINDS && consumed[0] < TILE_KINDS && consumed[1] < TILE_KINDS && consumed[2] < TILE_KINDS,
        Event::Kakan { pai, consumed, .. } => pai < TILE_KINDS && consumed[0] < TILE_KINDS && consumed[1] < TILE_KINDS && consumed[2] < TILE_KINDS,
        Event::Ankan { consumed, .. } => consumed[0] < TILE_KINDS && consumed[1] < TILE_KINDS && consumed[2] < TILE_KINDS && consumed[3] < TILE_KINDS,
        Event::Dora { dora_marker } => dora_marker < TILE_KINDS,
        _ => true,
    }
}

/// A well-formed log: every event in it is well-formed.
pub open spec fn wf_events(es: Seq<Event>) -> bool {
    forall|i: int| 0 <= i < es.len() ==> wf_event(#[trigger] es[i])
}

/// Collapses a promoted ("red") rank-5 tile to its ordinary counterpart;
/// every other identity is left as it is. Identities 34, 35 and 36 are the
/// red fives of the three numbered suits, whose plain fives are 4, 13 and 22.
pub open spec fn spec_deaka(t: u8) -> u8 {
    if t == 34 {
        4
    } else if t == 35 {
        13
    } else if t == 36 {
        22
    } else {
        t
    }
}

/// Executable form of [`spec_deaka`].
pub fn deaka(t: u8) -> (r: u8)
    ensures
        r == spec_deaka(t),
        t < TILE_KINDS ==> r < 34,
{
    if t == 34 {
        4
    } else if t == 35 {
        13
    } else if t == 36 {
        22
    } else {
        t
    }
}

} // verus!
