//! The search coordinator: validates the request, makes the base key,
//! picks a backend, and turns batch outcomes into the one result of a run.
use crate::derive::{base58_of, base58_text, illegal_owner, SearchError};
use crate::metal::{dispatch_wins, found_address, DispatchState, MetalDevice};
use crate::pattern::{parse_position, position_named, Position};
use crate::search::{batch_outcome, search_batch, valid_batch, winner};
use crate::stats::{counted, SearchStats};
use solana_sdk::signature::Keypair;
use vstd::prelude::*;
use vstd::string::StringSliceAdditionalSpecFns;
use vstd::utf8::encode_utf8;

verus! {

/// Relies on `Keypair::new` (a fresh random key pair) and `Keypair::to_bytes`
/// (64 bytes: the secret key, then the public key). Nothing is known of the
/// bytes: they are random.
#[verifier::external_body]
fn new_keypair_bytes() -> (r: [u8; 64]) {
    Keypair::new().to_bytes()
}

/// The base key pair of a run, as the 64 bytes of its secret and public
/// halves.
#[derive(Clone, Copy, Debug)]
pub struct BaseKey {
    pub bytes: [u8; 64],
}

impl BaseKey {
    /// The public half: the last 32 bytes.
    pub open spec fn public_view(&self) -> Seq<u8> {
        self@.subrange(32, 64)
    }

    pub open spec fn view(&self) -> Seq<u8> {
        self.bytes@
    }

    /// A fresh random key pair.
    pub fn generate() -> (r: BaseKey) {
        BaseKey { bytes: new_keypair_bytes() }
    }

    pub fn from_bytes(bytes: [u8; 64]) -> (r: BaseKey)
        ensures
            r@ == bytes@,
    {
        BaseKey { bytes }
    }

    /// The public key, the input to every derivation.
    pub fn public_key(&self) -> (r: [u8; 32])
        ensures
            r@ == self.public_view(),
    {
        let mut out: [u8; 32] = [0; 32];
        let mut i: usize = 0;
        while i < 32
            invariant
                i <= 32,
                self.bytes@.len() == 64,
                forall|j: int| 0 <= j < i ==> out@[j] == self.bytes@[32 + j],
            decreases 32 - i,
        {
            out[i] = self.bytes[32 + i];
            i = i + 1;
        }
        assert(out@ =~= self.public_view());
        out
    }
}

/// Which backend runs the batches.
#[derive(Clone, Copy, Debug, PartialEq, Eq, Structural)]
pub enum Backend {
    Cpu,
    Accelerator,
}

/// The outcome of a run.
#[derive(Debug)]
pub struct SearchResult {
    /// Text form of the base public key.
    pub base_pubkey: String,
    /// The winning seed.
    pub seed: String,
    /// The derived address.
    pub token_address: [u8; 32],
    /// Text form of the derived address.
    pub token_address_text: String,
    /// The base key pair, as persisted.
    pub keypair_bytes: [u8; 64],
    /// Attempts counted up to and with the winning batch.
    pub attempts: u64,
}

/// A search run: its request, the base key, the backend and the shared
/// statistics. It is done once the found flag is set.
#[derive(Debug)]
pub struct Coordinator {
    pub pattern: String,
    pub position: Position,
    pub case_insensitive: bool,
    pub backend: Backend,
    pub device: Option<MetalDevice>,
    pub fell_back: bool,
    pub base: BaseKey,
    pub namespace: [u8; 32],
    pub batch_size: usize,
    pub stats: SearchStats,
}

/// What a result holds for a run under `base` whose winning seed and
/// address are `seed` and `address`, after `attempts` attempts.
pub open spec fn result_of(
    r: SearchResult,
    base: BaseKey,
    seed: Seq<char>,
    address: [u8; 32],
    attempts: u64,
) -> bool {
    &&& r.base_pubkey@ == base58_text(base.public_view())
    &&& r.seed@ == seed
    &&& r.token_address == address
    &&& r.token_address_text@ == base58_text(address@)
    &&& r.keypair_bytes == base.bytes
    &&& r.attempts == attempts
}

/// A run's result as the seed and address it reports.
pub open spec fn result_view(r: Option<SearchResult>) -> Option<(Seq<char>, Seq<u8>)> {
    match r {
        Some(res) => Some((res.seed@, res.token_address@)),
        None => None,
    }
}

impl Coordinator {
    pub open spec fn is_done(&self) -> bool {
        self.stats.found
    }

    /// Starts a run. A position word other than `start` or `end` is
    /// refused with `InvalidArgument` before any key or batch is made.
    /// Otherwise the run begins with a fresh base key and zeroed
    /// statistics, on the accelerator when it was asked for and a device is
    /// at hand, else on the CPU; `fell_back` tells that the accelerator was
    /// asked for and missing.
    pub fn start(
        pattern: &str,
        position: &str,
        case_insensitive: bool,
        use_accelerator: bool,
        device: Option<MetalDevice>,
        namespace: [u8; 32],
        batch_size: usize,
    ) -> (r: Result<Coordinator, SearchError>)
        requires
            batch_size > 0,
        ensures
            position_named(position.spec_bytes()) is None <==> r is Err,
            r is Err ==> r == Err::<Coordinator, SearchError>(SearchError::InvalidArgument),
            r matches Ok(c) ==> {
                &&& !c.is_done()
                &&& Some(c.position) == position_named(position.spec_bytes())
                &&& c.pattern@ == pattern@
                &&& c.case_insensitive == case_insensitive
                &&& c.backend == (if use_accelerator && device is Some {
                    Backend::Accelerator
                } else {
                    Backend::Cpu
                })
                &&& c.fell_back == (use_accelerator && device is None)
                &&& c.device == (if use_accelerator { device } else { None })
                &&& c.namespace == namespace
                &&& c.batch_size == batch_size
                &&& c.stats.attempts == 0
                &&& !c.stats.found
            },
    {
        let pos = match parse_position(position) {
            Some(p) => p,
            None => { return Err(SearchError::InvalidArgument); },
        };
        let fell_back = use_accelerator && device.is_none();
        let (backend, device) = if use_accelerator && device.is_some() {
            (Backend::Accelerator, device)
        } else {
            (Backend::Cpu, None)
        };
        Ok(
            Coordinator {
                pattern: pattern.to_owned(),
                position: pos,
                case_insensitive,
                backend,
                device,
                fell_back,
                base: BaseKey::generate(),
                namespace,
                batch_size,
                stats: SearchStats::new(),
            },
        )
    }

    fn finish(&self, seed: String, address: [u8; 32]) -> (r: SearchResult)
        ensures
            result_of(r, self.base, seed@, address, self.stats.attempts),
    {
        let public = self.base.public_key();
        SearchResult {
            base_pubkey: base58_of(&public),
            seed: seed,
            token_address: address,
            token_address_text: base58_of(&address),
            keypair_bytes: self.base.bytes,
            attempts: self.stats.attempts,
        }
    }

    /// Runs one CPU batch. On a winner the run is done and its result
    /// returned; otherwise the run goes on with the batch counted. Whatever
    /// was drawn, the outcome is that of scanning some batch of valid seeds
    /// of the run's batch size; with an empty pattern and a namespace that
    /// derivation accepts, a non-empty batch always ends the run.
    pub fn run_batch(&mut self) -> (r: Option<SearchResult>)
        requires
            !old(self).is_done(),
        ensures
            *final(self) == (Coordinator { stats: final(self).stats, ..*old(self) }),
            final(self).stats.attempts == counted(old(self).stats.attempts, old(self).batch_size as u64),
            r is Some <==> final(self).is_done(),
            r matches Some(res) ==> {
                &&& result_of(res, old(self).base, res.seed@, res.token_address, final(self).stats.attempts)
                &&& winner(
                    old(self).base.public_view(),
                    old(self).namespace@,
                    encode_utf8(old(self).pattern@),
                    old(self).position,
                    old(self).case_insensitive,
                    res.seed@,
                    res.token_address,
                )
                &&& old(self).batch_size > 0
            },
            exists|b: Seq<Seq<char>>|
                valid_batch(b, old(self).batch_size as nat) && #[trigger] batch_outcome(
                    old(self).base.public_view(),
                    old(self).namespace@,
                    encode_utf8(old(self).pattern@),
                    old(self).position,
                    old(self).case_insensitive,
                    b,
                    result_view(r),
                ),
            old(self).batch_size > 0 && old(self).pattern@.len() == 0 && !illegal_owner(
                old(self).namespace@,
            ) ==> r is Some,
    {
        let public = self.base.public_key();
        let found = search_batch(
            &public,
            self.pattern.as_str(),
            self.position,
            self.case_insensitive,
            &mut self.stats,
            &self.namespace,
            self.batch_size,
        );
        match found {
            Some((seed, address)) => Some(self.finish(seed, address)),
            None => None,
        }
    }

    /// Takes in one finished accelerator dispatch. On a winner the run is
    /// done and its result returned; otherwise the run goes on with the
    /// dispatch's attempts counted.
    pub fn run_dispatch(&mut self, dispatch: &DispatchState) -> (r: Option<SearchResult>)
        requires
            !old(self).is_done(),
            old(self).device matches Some(d) && d.wf() && dispatch.attempts <= d.lane_count(),
            dispatch.wf(),
        ensures
            *final(self) == (Coordinator { stats: final(self).stats, ..*old(self) }),
            final(self).stats.attempts == counted(old(self).stats.attempts, dispatch.attempts),
            r is Some <==> final(self).is_done(),
            dispatch.result_seed is None ==> r is None,
            dispatch.result_seed is Some ==> (r is Some <==> dispatch_wins(
                old(self).base.public_view(),
                old(self).namespace@,
                encode_utf8(old(self).pattern@),
                old(self).position,
                old(self).case_insensitive,
                dispatch.result_seed->Some_0@,
            )),
            r matches Some(res) ==> {
                &&& dispatch.result_seed is Some && dispatch.result_seed->Some_0@ == res.seed@
                &&& result_of(res, old(self).base, res.seed@, res.token_address, final(self).stats.attempts)
                &&& found_address(
                    old(self).base.public_view(),
                    old(self).namespace@,
                    encode_utf8(old(self).pattern@),
                    old(self).position,
                    old(self).case_insensitive,
                    res.seed@,
                    res.token_address,
                )
            },
    {
        let public = self.base.public_key();
        let device = match &self.device {
            Some(d) => *d,
            None => { return None; },
        };
        let found = device.search_batch(
            &public,
            self.pattern.as_str(),
            self.position,
            self.case_insensitive,
            &mut self.stats,
            &self.namespace,
            dispatch,
        );
        match found {
            Some((seed, address)) => Some(self.finish(seed, address)),
            None => None,
        }
    }
}

} // verus!
