use token22_vanity::coordinator::{Backend, BaseKey, Coordinator};
use token22_vanity::derive::{derive_address, SearchError, TOKEN_PROGRAM_ID};
use token22_vanity::metal::{DispatchState, MetalDevice};
use token22_vanity::pattern::{matches_pattern, matches_text, parse_position, Position};
use token22_vanity::search::{scan_batch, search_batch, search_seeds};
use token22_vanity::seed::{generate_batch, generate_seed, is_valid_seed, seed_from_indices, SEED_LEN};
use token22_vanity::stats::SearchStats;

const HELLO_ADDRESS: [u8; 32] = [
    252, 26, 54, 201, 216, 98, 231, 177, 101, 162, 235, 209, 66, 116, 23, 199, 36, 63, 44, 25,
    93, 186, 92, 29, 99, 10, 228, 71, 142, 144, 233, 103,
];

const SEED_A: &str = "abcdefghijklmnopqrstuvwxyzABCDEF";
const SEED_A_ADDRESS: [u8; 32] = [
    116, 244, 203, 20, 81, 13, 9, 80, 207, 235, 243, 150, 206, 119, 209, 197, 152, 212, 99, 92,
    192, 229, 57, 158, 245, 36, 37, 248, 65, 143, 84, 19,
];
const SEED_B: &str = "0123456789abcdefghijklmnopqrstuv";
const SEED_B_ADDRESS: [u8; 32] = [
    128, 171, 77, 255, 172, 165, 149, 184, 196, 244, 149, 208, 224, 64, 68, 69, 142, 68, 208, 42,
    241, 242, 65, 240, 225, 129, 157, 173, 194, 22, 165, 89,
];

fn key_with_public_ones() -> BaseKey {
    let mut bytes = [0u8; 64];
    for b in bytes.iter_mut().skip(32) {
        *b = 1;
    }
    BaseKey::from_bytes(bytes)
}

#[test]
fn test_pattern_matching() {
    assert!(matches_pattern("hello", "he", false, "start"));
    assert!(matches_pattern("hello", "lo", false, "end"));
    assert!(matches_pattern("Hello", "he", true, "start"));
    assert!(!matches_pattern("hello", "HE", false, "start"));
}

#[test]
fn matcher_scenarios() {
    assert!(matches_text(b"hello", b"he", Position::Start, false));
    assert!(matches_text(b"hello", b"lo", Position::End, false));
    assert!(matches_text(b"Hello", b"he", Position::Start, true));
    assert!(!matches_text(b"hello", b"HE", Position::Start, false));
    assert!(matches_text(b"hello", b"HE", Position::Start, true));
    assert!(matches_text(b"helLO", b"Lo", Position::End, true));
    assert!(!matches_text(b"hello", b"he", Position::End, false));
}

#[test]
fn matcher_edges() {
    assert!(matches_text(b"abc", b"", Position::Start, false));
    assert!(matches_text(b"", b"", Position::End, true));
    assert!(!matches_text(b"ab", b"abc", Position::Start, false));
    assert!(matches_text(b"abc", b"abc", Position::End, false));
    assert!(!matches_pattern("hello", "he", false, "middle"));
}

#[test]
fn position_words() {
    assert_eq!(parse_position("start"), Some(Position::Start));
    assert_eq!(parse_position("end"), Some(Position::End));
    assert_eq!(parse_position("middle"), None);
    assert_eq!(parse_position("Start"), None);
    assert_eq!(parse_position(""), None);
}

#[test]
fn seeds_are_alphanumeric() {
    let s = generate_seed();
    assert_eq!(s.len(), SEED_LEN);
    assert!(s.chars().all(|c| c.is_ascii_alphanumeric()));
    let batch = generate_batch(7);
    assert_eq!(batch.len(), 7);
    assert!(batch.iter().all(|s| s.len() == SEED_LEN));
    assert!(generate_batch(0).is_empty());
}

#[test]
fn derivation_known_value() {
    let base = [1u8; 32];
    let r = derive_address(&base, "hello", &TOKEN_PROGRAM_ID);
    assert_eq!(r, Ok(HELLO_ADDRESS));
}

#[test]
fn derivation_is_deterministic() {
    let base = [7u8; 32];
    let seed = generate_seed();
    let a = derive_address(&base, &seed, &TOKEN_PROGRAM_ID);
    let b = derive_address(&base, &seed, &TOKEN_PROGRAM_ID);
    assert!(a.is_ok());
    assert_eq!(a, b);
}

#[test]
fn derivation_refuses_long_seed() {
    let base = [1u8; 32];
    let long = "a".repeat(33);
    assert_eq!(derive_address(&base, &long, &TOKEN_PROGRAM_ID), Err(SearchError::DerivationFailure));
    let max = "a".repeat(32);
    assert!(derive_address(&base, &max, &TOKEN_PROGRAM_ID).is_ok());
}

#[test]
fn derivation_refuses_marked_owner() {
    let mut owner = [0u8; 32];
    owner[11..].copy_from_slice(b"ProgramDerivedAddress");
    assert_eq!(derive_address(&[1u8; 32], "hello", &owner), Err(SearchError::DerivationFailure));
}

#[test]
fn attempts_count_whole_batches() {
    let mut stats = SearchStats::new();
    assert_eq!(stats.attempts(), 0);
    for _ in 0..3 {
        stats.record_batch(1000);
    }
    assert_eq!(stats.attempts(), 3000);
    stats.record_batch(u64::MAX);
    assert_eq!(stats.attempts(), u64::MAX);
}

#[test]
fn only_one_claim_wins() {
    let mut stats = SearchStats::new();
    let wins: Vec<bool> = (0..5).map(|_| stats.try_claim()).collect();
    assert_eq!(wins, vec![true, false, false, false, false]);
    assert!(stats.is_found());
}

#[test]
fn cpu_batch_counts_and_stops_after_a_win() {
    let base = [3u8; 32];
    let mut stats = SearchStats::new();
    let r = search_batch(&base, "", Position::Start, false, &mut stats, &TOKEN_PROGRAM_ID, 10);
    let (seed, address) = r.expect("an empty pattern matches the first candidate");
    assert_eq!(seed.len(), SEED_LEN);
    assert_eq!(derive_address(&base, &seed, &TOKEN_PROGRAM_ID), Ok(address));
    assert_eq!(stats.attempts(), 10);
    assert!(stats.is_found());
    let again = search_batch(&base, "", Position::Start, false, &mut stats, &TOKEN_PROGRAM_ID, 10);
    assert!(again.is_none());
    assert_eq!(stats.attempts(), 10);
}

#[test]
fn cpu_batch_without_match() {
    let base = [3u8; 32];
    let mut stats = SearchStats::new();
    let pattern = "0".repeat(50);
    for _ in 0..4 {
        assert!(search_batch(&base, &pattern, Position::End, false, &mut stats, &TOKEN_PROGRAM_ID, 25).is_none());
    }
    assert_eq!(stats.attempts(), 100);
    assert!(!stats.is_found());
}

#[test]
fn scan_takes_first_hit() {
    let derived = vec![Err(SearchError::DerivationFailure), Ok(HELLO_ADDRESS), Ok(HELLO_ADDRESS)];
    assert_eq!(scan_batch(&derived, "Hy6", Position::Start, false), Some(1));
    assert_eq!(scan_batch(&derived, "hy6", Position::Start, true), Some(1));
    assert_eq!(scan_batch(&derived, "hy6", Position::Start, false), None);
    assert_eq!(scan_batch(&derived, "xEkE", Position::End, false), Some(1));
    assert_eq!(scan_batch(&vec![], "", Position::Start, false), None);
}

#[test]
fn lanes_record_one_winner() {
    let mut d = DispatchState::new();
    d.lane_step(&"first".to_string(), false);
    d.lane_step(&"second".to_string(), true);
    d.lane_step(&"third".to_string(), true);
    assert!(d.found);
    assert_eq!(d.result_seed, Some("second".to_string()));
    assert_eq!(d.attempts, 2);
}

#[test]
fn device_geometry() {
    assert_eq!(MetalDevice::new().lanes(), 256 * 1024);
}

#[test]
fn dispatch_result_is_checked_and_reported() {
    let mut c = Coordinator::start("8SY", "start", true, true, Some(MetalDevice::new()), TOKEN_PROGRAM_ID, 10).unwrap();
    assert_eq!(c.backend, Backend::Accelerator);
    c.base = key_with_public_ones();
    let mut d = DispatchState::new();
    d.lane_step(&SEED_A.to_string(), true);
    d.attempts = 500;
    let r = c.run_dispatch(&d).expect("the recorded seed matches");
    assert_eq!(r.seed, SEED_A);
    assert_eq!(r.token_address, SEED_A_ADDRESS);
    assert_eq!(r.token_address_text, "8sYnnQ2C4h3v53HxXQUWA8XJks5jc2pGYFEykp8s44VQ");
    assert_eq!(r.base_pubkey, "4vJ9JU1bJJE96FWSJKvHsmmFADCg4gpZQff4P3bkLKi");
    assert_eq!(r.attempts, 500);
    assert_eq!(r.keypair_bytes, key_with_public_ones().bytes);
}

#[test]
fn dispatch_seed_that_does_not_match_is_refused() {
    let mut c = Coordinator::start("zzzz", "end", false, true, Some(MetalDevice::new()), TOKEN_PROGRAM_ID, 10).unwrap();
    c.base = key_with_public_ones();
    let mut d = DispatchState::new();
    d.lane_step(&SEED_A.to_string(), true);
    assert!(c.run_dispatch(&d).is_none());
    assert!(!c.stats.is_found());
    assert_eq!(c.stats.attempts(), 1);
}

#[test]
fn dispatch_seed_of_wrong_shape_is_refused() {
    let mut c = Coordinator::start("", "start", false, true, Some(MetalDevice::new()), TOKEN_PROGRAM_ID, 10).unwrap();
    c.base = key_with_public_ones();
    let mut d = DispatchState::new();
    d.lane_step(&"hello".to_string(), true);
    assert!(c.run_dispatch(&d).is_none());
    assert!(!c.stats.is_found());
    let mut empty = DispatchState::new();
    empty.lane_step(&SEED_A.to_string(), false);
    assert!(c.run_dispatch(&empty).is_none());
    assert_eq!(c.stats.attempts(), 2);
}

#[test]
fn seed_from_indices_picks_charset_entries() {
    let ks: Vec<usize> = (0..32).map(|i| if i < 26 { i } else { i + 26 }).collect();
    assert_eq!(seed_from_indices(&ks), "abcdefghijklmnopqrstuvwxyz012345");
    let last = vec![61usize; 32];
    assert_eq!(seed_from_indices(&last), "9".repeat(32));
    let caps: Vec<usize> = (26..58).collect();
    assert_eq!(seed_from_indices(&caps), "ABCDEFGHIJKLMNOPQRSTUVWXYZ012345");
}

#[test]
fn seed_shape_check() {
    assert!(is_valid_seed(SEED_A));
    assert!(is_valid_seed(&generate_seed()));
    assert!(!is_valid_seed("hello"));
    assert!(!is_valid_seed("abcdefghijklmnopqrstuvwxyzABCDE-"));
    assert!(!is_valid_seed(&"a".repeat(33)));
}

#[test]
fn search_seeds_returns_first_hit_and_skips_failures() {
    let base = [1u8; 32];
    let seeds = vec!["a".repeat(40), SEED_B.to_string(), SEED_A.to_string(), SEED_B.to_string()];
    let mut stats = SearchStats::new();
    let r = search_seeds(&base, &seeds, "8sy", Position::Start, true, &mut stats, &TOKEN_PROGRAM_ID);
    assert_eq!(r, Some((SEED_A.to_string(), SEED_A_ADDRESS)));
    assert_eq!(stats.attempts(), 4);
    assert!(stats.is_found());

    let mut stats = SearchStats::new();
    let r = search_seeds(&base, &seeds, "", Position::End, false, &mut stats, &TOKEN_PROGRAM_ID);
    assert_eq!(r, Some((SEED_B.to_string(), SEED_B_ADDRESS)));

    let mut stats = SearchStats::new();
    let r = search_seeds(&base, &seeds, "8sy", Position::Start, false, &mut stats, &TOKEN_PROGRAM_ID);
    assert_eq!(r, None);
    assert_eq!(stats.attempts(), 4);
    assert!(!stats.is_found());
}

#[test]
fn invalid_position_is_rejected() {
    let r = Coordinator::start("a", "middle", true, false, None, TOKEN_PROGRAM_ID, 10);
    assert_eq!(r.err(), Some(SearchError::InvalidArgument));
}

#[test]
fn end_to_end_single_character_prefix() {
    let mut c = Coordinator::start("a", "start", true, false, None, TOKEN_PROGRAM_ID, 1000).unwrap();
    assert_eq!(c.stats.attempts(), 0);
    let mut result = None;
    for _ in 0..20 {
        result = c.run_batch();
        if result.is_some() {
            break;
        }
    }
    let r = result.expect("a one-character prefix is found within a few batches");
    assert!(r.token_address_text.starts_with('a') || r.token_address_text.starts_with('A'));
    assert_eq!(r.attempts % 1000, 0);
    assert_eq!(derive_address(&c.base.public_key(), &r.seed, &TOKEN_PROGRAM_ID), Ok(r.token_address));
    assert!(c.stats.is_found());
}

#[test]
fn fallback_to_cpu_without_device() {
    let mut c = Coordinator::start("1", "end", false, true, None, TOKEN_PROGRAM_ID, 2000).unwrap();
    assert_eq!(c.backend, Backend::Cpu);
    assert!(c.fell_back);
    let mut result = None;
    for _ in 0..50 {
        result = c.run_batch();
        if result.is_some() {
            break;
        }
    }
    let r = result.expect("a one-character suffix is found within a few batches");
    assert!(r.token_address_text.ends_with('1'));
    assert_eq!(r.seed.len(), SEED_LEN);
    assert_eq!(r.keypair_bytes, c.base.bytes);
    assert!(r.attempts > 0);
}
