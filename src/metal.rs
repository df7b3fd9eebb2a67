//! The accelerator backend: many lanes run derive-and-match at once and
//! share a found flag, a seed buffer and an attempt counter. Here stand the
//! protocol that each lane follows on those shared buffers and the host's
//! handling of a finished dispatch.
use crate::derive::{
    address_text_bytes, base58_of, derive_address, illegal_owner, seed_address, MAX_SEED_LEN,
};
use crate::pattern::{matches_text, text_matches, Position};
use crate::seed::{is_valid_seed, valid_seed};
use crate::stats::{claim_step, counted, SearchStats};
use vstd::prelude::*;
use vstd::string::StringSliceAdditionalSpecFns;
use vstd::utf8::encode_utf8;

verus! {

pub const THREADS_PER_THREADGROUP: u64 = 256;

pub const NUM_THREADGROUPS: u64 = 1024;

/// The buffers that the lanes of one dispatch share.
#[derive(Debug)]
pub struct DispatchState {
    pub found: bool,
    pub attempts: u64,
    pub result_seed: Option<String>,
}

impl DispatchState {
    /// A seed stands in the buffer exactly when the flag is set.
    pub open spec fn wf(&self) -> bool {
        self.found <==> self.result_seed is Some
    }

    /// Clear buffers, before a dispatch.
    pub fn new() -> (r: DispatchState)
        ensures
            r.wf(),
            !r.found,
            r.attempts == 0,
    {
        DispatchState { found: false, attempts: 0, result_seed: None }
    }

    /// What one lane does once it has derived and matched its candidate
    /// `seed`: it leaves at once if the flag is already set; otherwise it
    /// counts one attempt and, on a match, sets the flag by compare-and-swap
    /// and, having won it, writes its seed.
    pub fn lane_step(&mut self, seed: &String, matched: bool)
        requires
            old(self).wf(),
        ensures
            final(self).wf(),
            old(self).found ==> *final(self) == *old(self),
            !old(self).found ==> final(self).attempts == counted(old(self).attempts, 1),
            !old(self).found ==> final(self).found == matched,
            claim_step(
                old(self).found,
                final(self).found,
                old(self).result_seed is None && final(self).result_seed is Some,
            ),
            old(self).result_seed is None && final(self).result_seed is Some
                ==> final(self).result_seed == Some(*seed),
    {
        if self.found {
            return ;
        }
        self.attempts = self.attempts.saturating_add(1);
        if matched {
            self.found = true;
            self.result_seed = Some(seed.clone());
        }
    }
}

/// What the accelerator reports for a winning seed: a seed of the same
/// shape as the CPU backend's, and its address under `base` in `namespace`,
/// whose text carries the pattern.
pub open spec fn found_address(
    base: Seq<u8>,
    namespace: Seq<u8>,
    pattern: Seq<u8>,
    position: Position,
    case_insensitive: bool,
    seed: Seq<char>,
    address: [u8; 32],
) -> bool {
    &&& valid_seed(seed)
    &&& encode_utf8(seed).len() <= MAX_SEED_LEN
    &&& !illegal_owner(namespace)
    &&& address@ == seed_address(base, encode_utf8(seed), namespace)
    &&& text_matches(address_text_bytes(address@), pattern, position, case_insensitive)
}

/// Whether a recorded seed is a winner: some address of it is one that
/// the accelerator may report.
pub open spec fn dispatch_wins(
    base: Seq<u8>,
    namespace: Seq<u8>,
    pattern: Seq<u8>,
    position: Position,
    case_insensitive: bool,
    seed: Seq<char>,
) -> bool {
    exists|a: [u8; 32]|
        found_address(base, namespace, pattern, position, case_insensitive, seed, a)
}

/// The geometry of an accelerator dispatch: lanes per group, and groups.
#[derive(Clone, Copy, Debug)]
pub struct MetalDevice {
    pub threads_per_threadgroup: u64,
    pub num_threadgroups: u64,
}

impl MetalDevice {
    pub open spec fn lane_count(&self) -> int {
        self.threads_per_threadgroup * self.num_threadgroups
    }

    pub open spec fn wf(&self) -> bool {
        0 < self.lane_count() <= u64::MAX
    }

    /// The dispatch geometry of the accelerator backend.
    pub fn new() -> (r: MetalDevice)
        ensures
            r.wf(),
            r.lane_count() == THREADS_PER_THREADGROUP * NUM_THREADGROUPS,
    {
        MetalDevice { threads_per_threadgroup: THREADS_PER_THREADGROUP, num_threadgroups: NUM_THREADGROUPS }
    }

    /// How many lanes one dispatch runs.
    pub fn lanes(&self) -> (r: u64)
        requires
            self.wf(),
        ensures
            r == self.lane_count(),
    {
        self.threads_per_threadgroup * self.num_threadgroups
    }

    /// Takes in a finished dispatch. When a winner was already claimed it
    /// returns at once. Otherwise it adds the lanes' attempts to `stats`;
    /// if a lane recorded a seed, it checks the seed's shape, derives its
    /// address again and checks its text against the pattern, and only then
    /// claims the found flag and returns the seed with its address.
    pub fn search_batch(
        &self,
        base: &[u8; 32],
        pattern: &str,
        position: Position,
        case_insensitive: bool,
        stats: &mut SearchStats,
        namespace: &[u8; 32],
        dispatch: &DispatchState,
    ) -> (r: Option<(String, [u8; 32])>)
        requires
            self.wf(),
            dispatch.wf(),
            dispatch.attempts <= self.lane_count(),
        ensures
            old(stats).found ==> r is None && *final(stats) == *old(stats),
            !old(stats).found ==> final(stats).attempts == counted(
                old(stats).attempts,
                dispatch.attempts,
            ),
            claim_step(old(stats).found, final(stats).found, r is Some),
            r matches Some((s, a)) ==> dispatch.result_seed == Some(s) && found_address(
                base@,
                namespace@,
                pattern.spec_bytes(),
                position,
                case_insensitive,
                s@,
                a,
            ),
            !old(stats).found && r is None ==> !final(stats).found,
            dispatch.result_seed is None ==> r is None,
            !old(stats).found && dispatch.result_seed is Some ==> (r is Some <==> dispatch_wins(
                base@,
                namespace@,
                pattern.spec_bytes(),
                position,
                case_insensitive,
                dispatch.result_seed->Some_0@,
            )),
    {
        if stats.is_found() {
            return None;
        }
        stats.record_batch(dispatch.attempts);
        let seed = match &dispatch.result_seed {
            Some(seed) => seed,
            None => { return None; },
        };
        if !is_valid_seed(seed.as_str()) {
            return None;
        }
        let address = match derive_address(base, seed.as_str(), namespace) {
            Ok(a) => a,
            Err(_) => { return None; },
        };
        let text = base58_of(&address);
        if matches_text(text.as_str().as_bytes(), pattern.as_bytes(), position, case_insensitive) {
            stats.try_claim();
            Some((seed.clone(), address))
        } else {
            None
        }
    }
}

} // verus!
