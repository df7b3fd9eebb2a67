//! Candidate seeds: strings of alphanumeric characters drawn at random.
use rand::Rng;
use vstd::prelude::*;
use vstd::string::StrSliceExecFns;
use vstd::string::StringExecFns;
use vstd::utf8::{encode_utf8, is_ascii_chars, is_ascii_chars_encode_utf8};

verus! {

/// The number of characters in a seed.
pub const SEED_LEN: usize = 32;

/// The number of candidates in one batch, by default.
pub const BATCH_SIZE: usize = 1_000_000;

/// The characters that seeds are drawn from.
pub open spec fn charset() -> Seq<char> {
    "abcdefghijklmnopqrstuvwxyzABCDEFGHIJKLMNOPQRSTUVWXYZ0123456789"@
}

/// A character that may stand in a seed: an ASCII letter or digit.
pub open spec fn seed_char(c: char) -> bool {
    ('a' <= c && c <= 'z') || ('A' <= c && c <= 'Z') || ('0' <= c && c <= '9')
}

/// A seed of the right length over the charset.
pub open spec fn valid_seed(s: Seq<char>) -> bool {
    &&& s.len() == SEED_LEN
    &&& forall|i: int| 0 <= i < s.len() ==> seed_char(#[trigger] s[i])
}

/// A valid seed is ASCII, so its bytes are as many as its characters.
pub proof fn lemma_valid_seed_bytes(s: Seq<char>)
    requires
        valid_seed(s),
    ensures
        encode_utf8(s).len() == SEED_LEN,
{
    assert(is_ascii_chars(s));
    is_ascii_chars_encode_utf8(s);
}

fn charset_str() -> (r: &'static str)
    ensures
        r@ == charset(),
        r.is_ascii(),
        r@.len() == 62,
        forall|k: int| 0 <= k < 62 ==> seed_char(#[trigger] charset()[k]),
{
    let s = "abcdefghijklmnopqrstuvwxyzABCDEFGHIJKLMNOPQRSTUVWXYZ0123456789";
    proof {
        reveal_strlit("abcdefghijklmnopqrstuvwxyzABCDEFGHIJKLMNOPQRSTUVWXYZ0123456789");
    }
    assert(s.is_ascii());
    s
}

/// Relies on `rand::thread_rng` and `Rng::gen_range`: a number drawn below
/// `n` (the range must not be empty).
#[verifier::external_body]
fn random_below(n: usize) -> (r: usize)
    requires
        n > 0,
    ensures
        r < n,
{
    rand::thread_rng().gen_range(0..n)
}

/// The seed whose characters are the charset's entries at `ks`, in order.
pub fn seed_from_indices(ks: &Vec<usize>) -> (r: String)
    requires
        ks@.len() == SEED_LEN,
        forall|i: int| 0 <= i < ks@.len() ==> ks@[i] < 62,
    ensures
        r@ == Seq::new(SEED_LEN as nat, |i: int| charset()[ks@[i] as int]),
        valid_seed(r@),
{
    let cs = charset_str();
    let mut seed = String::new();
    let mut i: usize = 0;
    while i < SEED_LEN
        invariant
            i <= SEED_LEN,
            ks@.len() == SEED_LEN,
            forall|j: int| 0 <= j < ks@.len() ==> ks@[j] < 62,
            cs@ == charset(),
            cs.is_ascii(),
            cs@.len() == 62,
            forall|k: int| 0 <= k < 62 ==> seed_char(#[trigger] charset()[k]),
            seed@ == Seq::new(i as nat, |j: int| charset()[ks@[j] as int]),
        decreases SEED_LEN - i,
    {
        let k = ks[i];
        let c = cs.substring_ascii(k, k + 1);
        seed.append(c);
        assert(seed@ =~= Seq::new((i + 1) as nat, |j: int| charset()[ks@[j] as int]));
        i = i + 1;
    }
    assert forall|j: int| 0 <= j < seed@.len() implies seed_char(#[trigger] seed@[j]) by {
        assert(seed_char(charset()[ks@[j] as int]));
    }
    seed
}

/// One random seed: `SEED_LEN` characters, each drawn from the charset.
pub fn generate_seed() -> (r: String)
    ensures
        valid_seed(r@),
{
    let mut ks: Vec<usize> = Vec::new();
    let mut i: usize = 0;
    while i < SEED_LEN
        invariant
            i <= SEED_LEN,
            ks@.len() == i,
            forall|j: int| 0 <= j < i ==> ks@[j] < 62,
        decreases SEED_LEN - i,
    {
        ks.push(random_below(62));
        i = i + 1;
    }
    seed_from_indices(&ks)
}

/// Whether `s` is a valid seed: `SEED_LEN` ASCII letters and digits.
pub fn is_valid_seed(s: &str) -> (r: bool)
    ensures
        r == valid_seed(s@),
{
    let n = s.unicode_len();
    if n != SEED_LEN {
        return false;
    }
    let mut i: usize = 0;
    while i < n
        invariant
            i <= n,
            n == s@.len(),
            forall|j: int| 0 <= j < i ==> seed_char(#[trigger] s@[j]),
        decreases n - i,
    {
        let c = s.get_char(i);
        if !(('a' <= c && c <= 'z') || ('A' <= c && c <= 'Z') || ('0' <= c && c <= '9')) {
            assert(!seed_char(s@[i as int]));
            return false;
        }
        i = i + 1;
    }
    true
}

/// A batch of `size` random seeds.
pub fn generate_batch(size: usize) -> (r: Vec<String>)
    ensures
        r@.len() == size,
        forall|i: int| 0 <= i < size ==> valid_seed(#[trigger] r@[i]@),
{
    let mut seeds: Vec<String> = Vec::new();
    let mut i: usize = 0;
    while i < size
        invariant
            i <= size,
            seeds@.len() == i,
            forall|j: int| 0 <= j < i ==> valid_seed(#[trigger] seeds@[j]@),
        decreases size - i,
    {
        let s = generate_seed();
        seeds.push(s);
        i = i + 1;
    }
    seeds
}

} // verus!
