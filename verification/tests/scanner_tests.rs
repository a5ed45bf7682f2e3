use sandbox_sdk::pattern::{find_pattern, parse_pattern, pat_matches, PatternError};
use sandbox_sdk::regions::{eligible_regions, RegionInfo, MEM_COMMIT, MEM_PRIVATE, PAGE_GUARD,
    PAGE_NOACCESS, PAGE_READWRITE};
use sandbox_sdk::strutil::{str_eq, str_starts_with};

fn wild(n: usize) -> Vec<Option<u8>> {
    vec![None; n]
}

#[test]
fn parse_pattern_bytes_and_wildcards() {
    let p = parse_pattern("48 8b ?? 05").unwrap();
    assert_eq!(p, vec![Some(0x48), Some(0x8b), None, Some(0x05)]);
}

#[test]
fn parse_pattern_whitespace_and_case() {
    let p = parse_pattern("  aB \t 0F\n??  ").unwrap();
    assert_eq!(p, vec![Some(0xab), Some(0x0f), None]);
}

#[test]
fn parse_pattern_empty_text() {
    assert_eq!(parse_pattern("").unwrap(), Vec::<Option<u8>>::new());
    assert_eq!(parse_pattern("   ").unwrap(), Vec::<Option<u8>>::new());
}

#[test]
fn parse_pattern_leading_plus() {
    let p = parse_pattern("+1f").unwrap();
    assert_eq!(p, vec![Some(0x1f)]);
}

#[test]
fn parse_pattern_invalid_digit() {
    assert_eq!(parse_pattern("zz").unwrap_err(), PatternError::InvalidDigit);
    assert_eq!(parse_pattern("4? 00").unwrap_err(), PatternError::InvalidDigit);
    assert_eq!(parse_pattern("+").unwrap_err(), PatternError::InvalidDigit);
}

#[test]
fn parse_pattern_overflow() {
    assert_eq!(parse_pattern("100").unwrap_err(), PatternError::Overflow);
    assert_eq!(parse_pattern("00 fff").unwrap_err(), PatternError::Overflow);
}

#[test]
fn parse_pattern_error_order_first_bad_token() {
    // The first failing token decides the error.
    assert_eq!(parse_pattern("zz fff").unwrap_err(), PatternError::InvalidDigit);
    assert_eq!(parse_pattern("fff zz").unwrap_err(), PatternError::Overflow);
}

#[test]
fn all_wildcards_match_at_zero() {
    // A pattern of wildcards alone matches wherever its window fits.
    let mem = [9u8, 8, 7, 6];
    for n in 0..=4usize {
        let p = wild(n);
        assert!(pat_matches(&p, &mem));
        if n >= 1 {
            assert_eq!(find_pattern(&p, &mem), Some(0));
        }
    }
}

#[test]
fn mismatched_concrete_byte_never_matches() {
    // One mismatched concrete byte rules out every offset that lays it on
    // the mismatch.
    let mem = [1u8, 2, 3, 1, 2, 3];
    let p = vec![Some(1u8), Some(9u8), None];
    assert_eq!(find_pattern(&p, &mem), None);
    assert!(!pat_matches(&p, &mem));
}

#[test]
fn find_pattern_first_offset() {
    let mem = [0u8, 5, 6, 5, 6, 0];
    let p = vec![Some(5u8), Some(6u8)];
    assert_eq!(find_pattern(&p, &mem), Some(1));
}

#[test]
fn find_pattern_wildcard_positions() {
    let mem = [1u8, 2, 3, 4, 5];
    let p = vec![Some(2u8), None, Some(4u8)];
    assert_eq!(find_pattern(&p, &mem), Some(1));
}

#[test]
fn find_pattern_longer_than_memory() {
    let mem = [1u8, 2];
    let p = wild(3);
    assert_eq!(find_pattern(&p, &mem), None);
}

#[test]
fn pat_matches_ignores_positions_past_shorter() {
    // The zip semantics: positions past the shorter side never reject.
    let p = vec![Some(1u8), Some(2u8), Some(99u8)];
    let mem = [1u8, 2];
    assert!(pat_matches(&p, &mem));
}

fn region(base: u64, size: u64) -> RegionInfo {
    RegionInfo {
        allocation_base: base,
        base_address: base,
        allocation_protect: PAGE_READWRITE,
        region_size: size,
        state: MEM_COMMIT,
        protect: 0,
        mem_type: MEM_PRIVATE,
    }
}

#[test]
fn eligible_regions_keep_plain_readwrite() {
    let infos = vec![region(0x1000, 8192), region(0x9000, 8192)];
    let kept = eligible_regions(&infos);
    assert_eq!(kept, infos);
}

#[test]
fn eligible_regions_drop_small_guard_noaccess_and_foreign() {
    let small = RegionInfo { region_size: 4096, ..region(0x1000, 0) };
    let guard = RegionInfo { protect: PAGE_GUARD, ..region(0x2000, 8192) };
    let noaccess = RegionInfo { protect: PAGE_NOACCESS, ..region(0x3000, 8192) };
    let not_committed = RegionInfo { state: 0, ..region(0x4000, 8192) };
    let shared = RegionInfo { mem_type: 0, ..region(0x5000, 8192) };
    let readonly = RegionInfo { allocation_protect: 0x02, ..region(0x6000, 8192) };
    let tail_page = RegionInfo { allocation_base: 0x7000, ..region(0x8000, 8192) };
    let good = region(0x9000, 8192);
    let infos =
        vec![small, guard, noaccess, not_committed, shared, readonly, tail_page, good];
    let kept = eligible_regions(&infos);
    assert_eq!(kept, vec![good]);
}

#[test]
fn eligible_regions_dedup_adjacent_allocation() {
    // Two adjacent pages of one allocation collapse to the first.
    let first = region(0x1000, 8192);
    let second = RegionInfo { base_address: 0x3000, ..region(0x1000, 8192) };
    let other = region(0x9000, 8192);
    let kept = eligible_regions(&vec![first, second, other]);
    assert_eq!(kept, vec![first, other]);
}

#[test]
fn str_eq_and_starts_with() {
    assert!(str_eq("Class Core::Object", "Class Core::Object"));
    assert!(!str_eq("Class", "Clasz"));
    assert!(!str_eq("Class", "Class "));
    assert!(str_starts_with("Class Core::Object", "Class"));
    assert!(!str_starts_with("Core::Object", "Class"));
    assert!(!str_starts_with("Cl", "Class"));
    assert!(str_starts_with("anything", ""));
}
