use vstd::prelude::*;

verus! {

/// The state of the cache before any probe has answered.
pub const PROBE_UNKNOWN: u8 = 2;

/// The answer that a cache state holds: 0 is "absent", 1 is "present", any other value is
/// not known yet.
pub open spec fn cached_answer(state: u8) -> Option<bool> {
    if state == 0 {
        Some(false)
    } else if state == 1 {
        Some(true)
    } else {
        None
    }
}

/// The state that records the answer `supported`.
pub open spec fn state_of(supported: bool) -> u8 {
    if supported {
        1
    } else {
        0
    }
}

/// The state after one cached call that finds `state`: a known answer is returned as it
/// stands, and otherwise the probe runs and its answer `probe` is stored.
pub open spec fn after_call(state: u8, probe: bool) -> u8 {
    if cached_answer(state) is Some {
        state
    } else {
        state_of(probe)
    }
}

/// What a cached call that finds `state` returns, where the probe would answer `probe`.
pub open spec fn call_answer(state: u8, probe: bool) -> bool {
    match cached_answer(state) {
        Some(b) => b,
        None => probe,
    }
}

/// The state after cached calls, one after another, whose probes would answer `probes`.
pub open spec fn after_calls(state: u8, probes: Seq<bool>) -> u8
    decreases probes.len(),
{
    if probes.len() == 0 {
        state
    } else {
        after_call(after_calls(state, probes.drop_last()), probes.last())
    }
}

/// The state after callers that all found the cache unknown store, in the order given,
/// the answers `probes` of their own probes.
pub open spec fn after_racing_stores(state: u8, probes: Seq<bool>) -> u8 {
    if probes.len() == 0 {
        state
    } else {
        state_of(probes.last())
    }
}

/// The answer held by the cache state `state`, if it holds one.
pub fn read_probe_cache(state: u8) -> (r: Option<bool>)
    ensures
        r == cached_answer(state),
{
    if state == 0 {
        Some(false)
    } else if state == 1 {
        Some(true)
    } else {
        None
    }
}

/// The cache state to store once a probe has answered `supported`.
pub fn probe_cache_state(supported: bool) -> (r: u8)
    ensures
        r == state_of(supported),
        cached_answer(r) == Some(supported),
{
    if supported {
        1
    } else {
        0
    }
}

/// Once the cache holds an answer, later calls return it and leave the cache as it is,
/// whatever their probes would answer.
pub proof fn lemma_cached_answer_stable(state: u8, probes: Seq<bool>)
    requires
        cached_answer(state) is Some,
    ensures
        after_calls(state, probes) == state,
        forall|p: bool| call_answer(after_calls(state, probes), p) == cached_answer(state)->0,
    decreases probes.len(),
{
    if probes.len() > 0 {
        lemma_cached_answer_stable(state, probes.drop_last());
    }
}

/// Callers that race on the first use, and whose probes all answer `b`, each return `b`
/// and leave the cache holding `b`; from then on it never changes.
pub proof fn lemma_racing_callers_agree(probes: Seq<bool>, b: bool, later: Seq<bool>)
    requires
        probes.len() > 0,
        forall|i: int| 0 <= i < probes.len() ==> probes[i] == b,
    ensures
        forall|i: int| 0 <= i < probes.len() ==> call_answer(PROBE_UNKNOWN, #[trigger] probes[i])
            == b,
        cached_answer(after_racing_stores(PROBE_UNKNOWN, probes)) == Some(b),
        after_calls(after_racing_stores(PROBE_UNKNOWN, probes), later) == after_racing_stores(
            PROBE_UNKNOWN,
            probes,
        ),
{
    assert(probes.last() == probes[probes.len() - 1]);
    lemma_cached_answer_stable(after_racing_stores(PROBE_UNKNOWN, probes), later);
}

} // verus!
