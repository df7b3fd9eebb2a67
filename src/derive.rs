//! Address derivation: the account address that a base key, a seed and a
//! namespace (the owning program) determine, and its text form.
use solana_program::pubkey::Pubkey;
use vstd::prelude::*;
use vstd::string::StringSliceAdditionalSpecFns;
use vstd::utf8::encode_utf8;

verus! {

/// The longest seed, in bytes, that derivation accepts.
pub const MAX_SEED_LEN: usize = 32;

/// The namespace of the token program that addresses are derived for.
pub const TOKEN_PROGRAM_ID: [u8; 32] = [
    6, 221, 246, 225, 238, 117, 143, 222, 24, 66, 93, 188, 228, 108, 205, 218,
    182, 26, 252, 77, 131, 185, 13, 39, 254, 189, 249, 40, 216, 161, 139, 252,
];

/// The address derived from a base key, the bytes of a seed and an owner
/// (a digest of the three).
pub uninterp spec fn seed_address(base: Seq<u8>, seed: Seq<u8>, owner: Seq<u8>) -> Seq<u8>;

/// The base58 text of a 32-byte key.
pub uninterp spec fn base58_text(key: Seq<u8>) -> Seq<char>;

/// The marker that ends the owners which derivation refuses.
pub open spec fn pda_marker() -> Seq<u8> {
    seq![80u8, 114, 111, 103, 114, 97, 109, 68, 101, 114, 105, 118, 101, 100, 65, 100, 100, 114,
        101, 115, 115]
}

/// An owner that derivation refuses: one that ends with the marker.
pub open spec fn illegal_owner(owner: Seq<u8>) -> bool {
    owner.len() >= pda_marker().len() && owner.subrange(
        owner.len() - pda_marker().len(),
        owner.len() as int,
    ) == pda_marker()
}

/// What derivation gives: nothing for a seed that is too long or an owner
/// that is refused, else the derived address.
pub open spec fn derivation(base: Seq<u8>, seed: Seq<u8>, owner: Seq<u8>) -> Option<Seq<u8>> {
    if seed.len() > MAX_SEED_LEN || illegal_owner(owner) {
        None
    } else {
        Some(seed_address(base, seed, owner))
    }
}

/// The bytes of an address's text form.
pub open spec fn address_text_bytes(key: Seq<u8>) -> Seq<u8> {
    encode_utf8(base58_text(key))
}

/// Why a candidate, or a run, failed.
#[derive(Clone, Copy, Debug, PartialEq, Eq, Structural)]
pub enum SearchError {
    /// A position other than `start` or `end`.
    InvalidArgument,
    /// The accelerator was asked for and cannot be used.
    AcceleratorUnavailable,
    /// Derivation refused a seed (too long) or the namespace.
    DerivationFailure,
    /// The key could not be written out.
    ResourcePersistenceFailure,
}

/// Relies on `Pubkey::create_with_seed`: it refuses a seed of more than
/// `MAX_SEED_LEN` bytes and an owner that ends with "ProgramDerivedAddress",
/// and otherwise returns the digest of base, seed and owner.
#[verifier::external_body]
fn create_with_seed(base: &[u8; 32], seed: &str, owner: &[u8; 32]) -> (r: Option<[u8; 32]>)
    ensures
        r is None <==> (seed.spec_bytes().len() > MAX_SEED_LEN || illegal_owner(owner@)),
        r matches Some(a) ==> a@ == seed_address(base@, seed.spec_bytes(), owner@),
{
    Pubkey::create_with_seed(&Pubkey::new_from_array(*base), seed, &Pubkey::new_from_array(*owner))
        .ok()
        .map(|p| p.to_bytes())
}

/// Relies on `Pubkey`'s `Display`: the base58 text of the key's bytes.
#[verifier::external_body]
pub(crate) fn base58_of(key: &[u8; 32]) -> (r: String)
    ensures
        r@ == base58_text(key@),
{
    Pubkey::new_from_array(*key).to_string()
}

/// What `derive_address` promises of its result.
pub open spec fn derived(
    base: [u8; 32],
    seed: Seq<u8>,
    namespace: [u8; 32],
    r: Result<[u8; 32], SearchError>,
) -> bool {
    match derivation(base@, seed, namespace@) {
        Some(a) => r is Ok && r->Ok_0@ == a,
        None => r == Err::<[u8; 32], SearchError>(SearchError::DerivationFailure),
    }
}

/// Derives the address of `seed` under `base` in `namespace`. It fails, with
/// `DerivationFailure`, exactly when the seed is longer than `MAX_SEED_LEN`
/// bytes or the namespace is one that derivation refuses.
pub fn derive_address(base: &[u8; 32], seed: &str, namespace: &[u8; 32]) -> (r: Result<
    [u8; 32],
    SearchError,
>)
    ensures
        derived(*base, seed.spec_bytes(), *namespace, r),
{
    match create_with_seed(base, seed, namespace) {
        Some(a) => Ok(a),
        None => Err(SearchError::DerivationFailure),
    }
}

/// Derivation is a function: two results that both meet the contract of
/// `derive_address` for the same base key, seed and namespace hold the same
/// address, or are the same failure.
pub proof fn lemma_derivation_deterministic(
    base: [u8; 32],
    seed: Seq<u8>,
    namespace: [u8; 32],
    r1: Result<[u8; 32], SearchError>,
    r2: Result<[u8; 32], SearchError>,
)
    requires
        derived(base, seed, namespace, r1),
        derived(base, seed, namespace, r2),
    ensures
        r1 is Ok <==> r2 is Ok,
        r1 is Ok ==> r1->Ok_0@ == r2->Ok_0@,
        r1 is Err ==> r1 == r2,
{
}

} // verus!
