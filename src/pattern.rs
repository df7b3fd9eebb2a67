//! The pattern matcher: prefix or suffix tests over the text of an address,
//! with optional ASCII case folding.
use vstd::prelude::*;
use vstd::string::StringSliceAdditionalSpecFns;

verus! {

/// Where the pattern must stand in the address text.
#[derive(Clone, Copy, Debug, PartialEq, Eq, Structural)]
pub enum Position {
    Start,
    End,
}

/// ASCII lower-casing of one byte; other bytes are left alone.
pub open spec fn fold_byte(b: u8) -> u8 {
    if 65 <= b && b <= 90 {
        (b + 32) as u8
    } else {
        b
    }
}

/// The text as compared: folded when the search ignores case.
pub open spec fn folded(s: Seq<u8>, case_insensitive: bool) -> Seq<u8> {
    if case_insensitive {
        s.map_values(|b: u8| fold_byte(b))
    } else {
        s
    }
}

pub open spec fn has_prefix(s: Seq<u8>, p: Seq<u8>) -> bool {
    p.len() <= s.len() && s.subrange(0, p.len() as int) == p
}

pub open spec fn has_suffix(s: Seq<u8>, p: Seq<u8>) -> bool {
    p.len() <= s.len() && s.subrange(s.len() - p.len(), s.len() as int) == p
}

/// Whether `address` carries `pattern` at `position`.
pub open spec fn text_matches(
    address: Seq<u8>,
    pattern: Seq<u8>,
    position: Position,
    case_insensitive: bool,
) -> bool {
    let a = folded(address, case_insensitive);
    let p = folded(pattern, case_insensitive);
    match position {
        Position::Start => has_prefix(a, p),
        Position::End => has_suffix(a, p),
    }
}

/// The position named by a word: `start` or `end`.
pub open spec fn position_named(word: Seq<u8>) -> Option<Position> {
    if word == seq![115u8, 116, 97, 114, 116] {
        Some(Position::Start)
    } else if word == seq![101u8, 110, 100] {
        Some(Position::End)
    } else {
        None
    }
}

/// The empty pattern is carried by every text, at either end.
pub proof fn lemma_empty_pattern_matches(
    address: Seq<u8>,
    pattern: Seq<u8>,
    position: Position,
    case_insensitive: bool,
)
    requires
        pattern.len() == 0,
    ensures
        text_matches(address, pattern, position, case_insensitive),
{
    let a = folded(address, case_insensitive);
    let p = folded(pattern, case_insensitive);
    assert(p =~= Seq::<u8>::empty());
    assert(a.subrange(0, 0) =~= p);
    assert(a.subrange(a.len() as int, a.len() as int) =~= p);
}

pub fn fold(b: u8, case_insensitive: bool) -> (r: u8)
    ensures
        r == (if case_insensitive { fold_byte(b) } else { b }),
{
    if case_insensitive && 65 <= b && b <= 90 {
        b + 32
    } else {
        b
    }
}

/// Compares `pattern` with the bytes of `address` from `offset` on.
fn matches_at(address: &[u8], pattern: &[u8], offset: usize, case_insensitive: bool) -> (r: bool)
    requires
        offset + pattern@.len() <= address@.len(),
    ensures
        r == (folded(address@, case_insensitive).subrange(
            offset as int,
            offset + pattern@.len(),
        ) == folded(pattern@, case_insensitive)),
{
    let ghost a = folded(address@, case_insensitive);
    let ghost p = folded(pattern@, case_insensitive);
    let n = address.len();
    let mut i: usize = 0;
    while i < pattern.len()
        invariant
            i <= pattern@.len(),
            n == address@.len(),
            offset + pattern@.len() <= address@.len(),
            a == folded(address@, case_insensitive),
            p == folded(pattern@, case_insensitive),
            forall|j: int| 0 <= j < i ==> a[offset + j] == p[j],
        decreases pattern@.len() - i,
    {
        if fold(address[offset + i], case_insensitive) != fold(pattern[i], case_insensitive) {
            assert(a.subrange(offset as int, offset + pattern@.len())[i as int] != p[i as int]);
            return false;
        }
        i = i + 1;
    }
    assert(a.subrange(offset as int, offset + pattern@.len()) =~= p);
    true
}

/// The matcher over raw text: whether `address` carries `pattern` at
/// `position`, both folded to lower case first when `case_insensitive`.
pub fn matches_text(address: &[u8], pattern: &[u8], position: Position, case_insensitive: bool) -> (r:
    bool)
    ensures
        r == text_matches(address@, pattern@, position, case_insensitive),
{
    if pattern.len() > address.len() {
        return false;
    }
    match position {
        Position::Start => matches_at(address, pattern, 0, case_insensitive),
        Position::End => matches_at(
            address,
            pattern,
            address.len() - pattern.len(),
            case_insensitive,
        ),
    }
}

fn same_bytes(a: &[u8], b: &[u8]) -> (r: bool)
    ensures
        r == (a@ == b@),
{
    if a.len() != b.len() {
        return false;
    }
    let mut i: usize = 0;
    while i < a.len()
        invariant
            i <= a@.len(),
            a@.len() == b@.len(),
            forall|j: int| 0 <= j < i ==> a@[j] == b@[j],
        decreases a@.len() - i,
    {
        if a[i] != b[i] {
            return false;
        }
        i = i + 1;
    }
    assert(a@ =~= b@);
    true
}

/// Reads a position word; any word but `start` and `end` is refused.
pub fn parse_position(word: &str) -> (r: Option<Position>)
    ensures
        r == position_named(word.spec_bytes()),
{
    let start: [u8; 5] = [115, 116, 97, 114, 116];
    let end: [u8; 3] = [101, 110, 100];
    let w = word.as_bytes();
    assert(start@ =~= seq![115u8, 116, 97, 114, 116]);
    assert(end@ =~= seq![101u8, 110, 100]);
    if same_bytes(w, start.as_slice()) {
        Some(Position::Start)
    } else if same_bytes(w, end.as_slice()) {
        Some(Position::End)
    } else {
        None
    }
}

/// Whether `address` carries `pattern` at the named position; a word that
/// names no position matches nothing.
pub fn matches_pattern(address: &str, pattern: &str, case_insensitive: bool, position: &str) -> (r:
    bool)
    ensures
        r == match position_named(position.spec_bytes()) {
            Some(p) => text_matches(address.spec_bytes(), pattern.spec_bytes(), p, case_insensitive),
            None => false,
        },
{
    match parse_position(position) {
        Some(p) => matches_text(address.as_bytes(), pattern.as_bytes(), p, case_insensitive),
        None => false,
    }
}

} // verus!
