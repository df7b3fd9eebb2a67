//! The CPU search backend: one batch of random candidates, derived in
//! parallel and scanned in the order they were generated.
use crate::derive::{
    address_text_bytes, base58_of, derivation, derive_address, derived, illegal_owner,
    seed_address, SearchError, MAX_SEED_LEN,
};
use crate::pattern::{lemma_empty_pattern_matches, matches_text, text_matches, Position};
use crate::seed::{generate_batch, lemma_valid_seed_bytes, valid_seed};
use crate::stats::{claim_step, counted, SearchStats};
use rayon::iter::{IntoParallelRefIterator, ParallelIterator};
use vstd::prelude::*;
use vstd::string::StringSliceAdditionalSpecFns;
use vstd::utf8::encode_utf8;

verus! {

/// Whether a derivation outcome is an address whose text carries the
/// pattern.
pub open spec fn hits(
    d: Result<[u8; 32], SearchError>,
    pattern: Seq<u8>,
    position: Position,
    case_insensitive: bool,
) -> bool {
    d is Ok && text_matches(address_text_bytes(d->Ok_0@), pattern, position, case_insensitive)
}

/// Relies on rayon's `par_iter().map(..).collect()` into a `Vec`, which keeps
/// the length and the order of the input; each item is `derive_address`.
#[verifier::external_body]
fn derive_all(base: &[u8; 32], seeds: &Vec<String>, namespace: &[u8; 32]) -> (r: Vec<
    Result<[u8; 32], SearchError>,
>)
    ensures
        r@.len() == seeds@.len(),
        forall|i: int|
            0 <= i < r@.len() ==> derived(*base, encode_utf8(seeds@[i]@), *namespace, #[trigger] r@[i]),
{
    seeds.par_iter().map(|s| derive_address(base, s, namespace)).collect()
}

/// The index of the first derived address, in generation order, whose text
/// carries the pattern; `None` when there is none.
pub fn scan_batch(
    derived: &Vec<Result<[u8; 32], SearchError>>,
    pattern: &str,
    position: Position,
    case_insensitive: bool,
) -> (r: Option<usize>)
    ensures
        match r {
            Some(i) => {
                &&& i < derived@.len()
                &&& hits(derived@[i as int], pattern.spec_bytes(), position, case_insensitive)
                &&& forall|j: int|
                    0 <= j < i ==> !hits(
                        #[trigger] derived@[j],
                        pattern.spec_bytes(),
                        position,
                        case_insensitive,
                    )
            },
            None => forall|j: int|
                0 <= j < derived@.len() ==> !hits(
                    #[trigger] derived@[j],
                    pattern.spec_bytes(),
                    position,
                    case_insensitive,
                ),
        },
{
    let p = pattern.as_bytes();
    let mut i: usize = 0;
    while i < derived.len()
        invariant
            i <= derived@.len(),
            p@ == pattern.spec_bytes(),
            forall|j: int|
                0 <= j < i ==> !hits(
                    #[trigger] derived@[j],
                    pattern.spec_bytes(),
                    position,
                    case_insensitive,
                ),
        decreases derived@.len() - i,
    {
        match &derived[i] {
            Ok(a) => {
                let text = base58_of(a);
                if matches_text(text.as_str().as_bytes(), p, position, case_insensitive) {
                    return Some(i);
                }
            },
            Err(_) => {},
        }
        i = i + 1;
    }
    None
}

/// Whether `seed` derives, under `base` in `namespace`, to an address whose
/// text carries the pattern.
pub open spec fn seed_hits(
    base: Seq<u8>,
    namespace: Seq<u8>,
    pattern: Seq<u8>,
    position: Position,
    case_insensitive: bool,
    seed: Seq<char>,
) -> bool {
    match derivation(base, encode_utf8(seed), namespace) {
        Some(a) => text_matches(address_text_bytes(a), pattern, position, case_insensitive),
        None => false,
    }
}

/// What scanning `seeds` in order gives: the first seed that hits, with its
/// address, or nothing when none hits.
pub open spec fn batch_outcome(
    base: Seq<u8>,
    namespace: Seq<u8>,
    pattern: Seq<u8>,
    position: Position,
    case_insensitive: bool,
    seeds: Seq<Seq<char>>,
    r: Option<(Seq<char>, Seq<u8>)>,
) -> bool {
    match r {
        Some((s, a)) => exists|i: int|
            {
                &&& 0 <= i < seeds.len()
                &&& #[trigger] seeds[i] == s
                &&& seed_hits(base, namespace, pattern, position, case_insensitive, s)
                &&& a == seed_address(base, encode_utf8(s), namespace)
                &&& forall|j: int|
                    0 <= j < i ==> !seed_hits(
                        base,
                        namespace,
                        pattern,
                        position,
                        case_insensitive,
                        #[trigger] seeds[j],
                    )
            },
        None => forall|j: int|
            0 <= j < seeds.len() ==> !seed_hits(
                base,
                namespace,
                pattern,
                position,
                case_insensitive,
                #[trigger] seeds[j],
            ),
    }
}

/// A batch of `n` valid seeds.
pub open spec fn valid_batch(b: Seq<Seq<char>>, n: nat) -> bool {
    &&& b.len() == n
    &&& forall|i: int| 0 <= i < b.len() ==> valid_seed(#[trigger] b[i])
}

pub open spec fn seeds_view(v: Seq<String>) -> Seq<Seq<char>> {
    v.map_values(|s: String| s@)
}

pub open spec fn outcome_view(r: Option<(String, [u8; 32])>) -> Option<(Seq<char>, Seq<u8>)> {
    match r {
        Some((s, a)) => Some((s@, a@)),
        None => None,
    }
}

/// What a winning candidate of a batch satisfies: a valid seed, its address
/// under `base` in `namespace`, and a text that carries the pattern.
pub open spec fn winner(
    base: Seq<u8>,
    namespace: Seq<u8>,
    pattern: Seq<u8>,
    position: Position,
    case_insensitive: bool,
    seed: Seq<char>,
    address: [u8; 32],
) -> bool {
    &&& valid_seed(seed)
    &&& encode_utf8(seed).len() <= MAX_SEED_LEN
    &&& !illegal_owner(namespace)
    &&& address@ == seed_address(base, encode_utf8(seed), namespace)
    &&& text_matches(address_text_bytes(address@), pattern, position, case_insensitive)
}

/// Searches the given seeds. When a winner was already claimed it returns at
/// once. Otherwise it derives every seed's address, counts all the seeds as
/// attempts, once, and returns the first seed, in order, whose derivation
/// succeeds and whose address text carries the pattern, after claiming the
/// found flag for it; seeds whose derivation fails are passed over.
pub fn search_seeds(
    base: &[u8; 32],
    seeds: &Vec<String>,
    pattern: &str,
    position: Position,
    case_insensitive: bool,
    stats: &mut SearchStats,
    namespace: &[u8; 32],
) -> (r: Option<(String, [u8; 32])>)
    ensures
        old(stats).found ==> r is None && *final(stats) == *old(stats),
        !old(stats).found ==> final(stats).attempts == counted(
            old(stats).attempts,
            seeds@.len() as u64,
        ),
        !old(stats).found ==> batch_outcome(
            base@,
            namespace@,
            pattern.spec_bytes(),
            position,
            case_insensitive,
            seeds_view(seeds@),
            outcome_view(r),
        ),
        claim_step(old(stats).found, final(stats).found, r is Some),
{
    if stats.is_found() {
        return None;
    }
    let outcomes = derive_all(base, seeds, namespace);
    stats.record_batch(seeds.len() as u64);
    let ghost sv = seeds_view(seeds@);
    proof {
        assert forall|j: int| 0 <= j < outcomes@.len() implies #[trigger] hits(
            outcomes@[j],
            pattern.spec_bytes(),
            position,
            case_insensitive,
        ) == seed_hits(base@, namespace@, pattern.spec_bytes(), position, case_insensitive, sv[j]) by {
            assert(sv[j] == seeds@[j]@);
            assert(crate::derive::derived(*base, encode_utf8(seeds@[j]@), *namespace, outcomes@[j]));
        }
    }
    match scan_batch(&outcomes, pattern, position, case_insensitive) {
        Some(i) => match &outcomes[i] {
            Ok(address) => {
                stats.try_claim();
                let seed = seeds[i].clone();
                proof {
                    assert(sv[i as int] == seeds@[i as int]@);
                    assert(hits(outcomes@[i as int], pattern.spec_bytes(), position, case_insensitive));
                    assert forall|j: int| 0 <= j < i implies !seed_hits(
                        base@,
                        namespace@,
                        pattern.spec_bytes(),
                        position,
                        case_insensitive,
                        #[trigger] sv[j],
                    ) by {
                        assert(!hits(outcomes@[j], pattern.spec_bytes(), position, case_insensitive));
                    }
                }
                Some((seed, *address))
            },
            Err(_) => None,
        },
        None => {
            proof {
                assert forall|j: int| 0 <= j < sv.len() implies !seed_hits(
                    base@,
                    namespace@,
                    pattern.spec_bytes(),
                    position,
                    case_insensitive,
                    #[trigger] sv[j],
                ) by {
                    assert(!hits(outcomes@[j], pattern.spec_bytes(), position, case_insensitive));
                }
            }
            None
        },
    }
}

/// Searches one batch of `batch_size` random seeds with `search_seeds`.
/// Whatever was drawn, the outcome is that of scanning some batch of
/// `batch_size` valid seeds; with an empty pattern and a namespace that
/// derivation accepts, a non-empty batch always yields a winner.
pub fn search_batch(
    base: &[u8; 32],
    pattern: &str,
    position: Position,
    case_insensitive: bool,
    stats: &mut SearchStats,
    namespace: &[u8; 32],
    batch_size: usize,
) -> (r: Option<(String, [u8; 32])>)
    ensures
        old(stats).found ==> r is None && *final(stats) == *old(stats),
        !old(stats).found ==> final(stats).attempts == counted(
            old(stats).attempts,
            batch_size as u64,
        ),
        claim_step(old(stats).found, final(stats).found, r is Some),
        !old(stats).found ==> exists|b: Seq<Seq<char>>|
            valid_batch(b, batch_size as nat) && #[trigger] batch_outcome(
                base@,
                namespace@,
                pattern.spec_bytes(),
                position,
                case_insensitive,
                b,
                outcome_view(r),
            ),
        r matches Some((s, a)) ==> batch_size > 0 && winner(
            base@,
            namespace@,
            pattern.spec_bytes(),
            position,
            case_insensitive,
            s@,
            a,
        ),
        !old(stats).found && batch_size > 0 && pattern.spec_bytes().len() == 0 && !illegal_owner(
            namespace@,
        ) ==> r is Some,
{
    if stats.is_found() {
        return None;
    }
    let seeds = generate_batch(batch_size);
    let r = search_seeds(base, &seeds, pattern, position, case_insensitive, stats, namespace);
    proof {
        let b = seeds_view(seeds@);
        assert forall|i: int| 0 <= i < b.len() implies valid_seed(#[trigger] b[i]) by {
            assert(b[i] == seeds@[i]@);
        }
        assert(valid_batch(b, batch_size as nat));
        if r is Some {
            let s = r->Some_0.0;
            let i = choose|i: int|
                {
                    &&& 0 <= i < b.len()
                    &&& #[trigger] b[i] == s@
                    &&& seed_hits(base@, namespace@, pattern.spec_bytes(), position, case_insensitive, s@)
                    &&& r->Some_0.1@ == seed_address(base@, encode_utf8(s@), namespace@)
                    &&& forall|j: int|
                        0 <= j < i ==> !seed_hits(
                            base@,
                            namespace@,
                            pattern.spec_bytes(),
                            position,
                            case_insensitive,
                            #[trigger] b[j],
                        )
                };
            lemma_valid_seed_bytes(s@);
        } else if batch_size > 0 && pattern.spec_bytes().len() == 0 && !illegal_owner(namespace@) {
            lemma_valid_seed_bytes(b[0]);
            lemma_empty_pattern_matches(
                address_text_bytes(seed_address(base@, encode_utf8(b[0]), namespace@)),
                pattern.spec_bytes(),
                position,
                case_insensitive,
            );
            assert(seed_hits(base@, namespace@, pattern.spec_bytes(), position, case_insensitive, b[0]));
        }
    }
    r
}

} // verus!
