//! Locating the two global anchor tables inside a process-memory snapshot
//! with no prior known address: the name table's backing-array field is found
//! by a three-hop backward inference, and the object table sits at a fixed
//! offset from it.
use vstd::prelude::*;

use crate::pattern::{find_pattern, matches_at};

verus! {

/// The fixed number of padding bytes that lead every name-table entry before
/// its wide-character text. Discovered empirically from the target binary;
/// the single configuration point of the whole inference.
pub const FNAMEENTRY_PADDING: usize = 0x18;

/// The fixed byte distance from the resolved name-table anchor to the object
/// table. Configuration determined once per target binary.
pub const GOBJECTS_OFFSET: usize = 0x48;

/// One readable, committed span of the host process's address space,
/// mirrored at the moment of the snapshot.
pub struct Region {
    /// The address the span starts at inside the host process.
    pub base: usize,
    /// The bytes of the span.
    pub bytes: Vec<u8>,
}

impl Region {
    /// A span lies inside the address space: its end address fits.
    pub open spec fn wf(&self) -> bool {
        self.base + self.bytes@.len() <= usize::MAX
    }
}

pub open spec fn wf_regions(rs: Seq<Region>) -> bool {
    forall|i: int| 0 <= i < rs.len() ==> (#[trigger] rs[i]).wf()
}

/// Whether `n` occurs in `h` starting at position `i`.
pub open spec fn occurs_at(h: Seq<u8>, n: Seq<u8>, i: int) -> bool {
    &&& 0 <= i
    &&& i + n.len() <= h.len()
    &&& h.subrange(i, i + n.len()) == n
}

/// The position of the first occurrence of `n` in `h` at or after `i`.
pub open spec fn first_occurrence_from(h: Seq<u8>, n: Seq<u8>, i: int) -> Option<int>
    decreases h.len() - i,
    when 0 <= i
{
    if i + n.len() > h.len() {
        None
    } else if n.len() == 0 {
        Some(i)
    } else if h.subrange(i, i + n.len()) == n {
        Some(i)
    } else {
        first_occurrence_from(h, n, i + 1)
    }
}

pub open spec fn first_occurrence(h: Seq<u8>, n: Seq<u8>) -> Option<int> {
    first_occurrence_from(h, n, 0)
}

/// Whether `r` names the first occurrence of `n` in `h`, or correctly reports
/// that there is none.
pub open spec fn is_first_occurrence(h: Seq<u8>, n: Seq<u8>, r: Option<int>) -> bool {
    match r {
        Some(i) => occurs_at(h, n, i) && forall|j: int| 0 <= j < i ==> !occurs_at(h, n, j),
        None => forall|j: int| !occurs_at(h, n, j),
    }
}

pub proof fn lemma_first_occurrence_from_correct(h: Seq<u8>, n: Seq<u8>, i: int)
    requires
        0 <= i,
    ensures
        (match first_occurrence_from(h, n, i) {
            Some(j) => i <= j && occurs_at(h, n, j) && forall|k: int|
                i <= k < j ==> !occurs_at(h, n, k),
            None => forall|k: int| k >= i ==> !occurs_at(h, n, k),
        }),
    decreases h.len() - i,
{
    if i + n.len() > h.len() {
        assert forall|k: int| k >= i implies !occurs_at(h, n, k) by {}
    } else if n.len() == 0 {
        assert(h.subrange(i, i + n.len()) =~= n);
    } else if h.subrange(i, i + n.len()) == n {
    } else {
        lemma_first_occurrence_from_correct(h, n, i + 1);
        assert(!occurs_at(h, n, i));
    }
}

/// The first occurrence is determined: any result satisfying the
/// first-occurrence characterization equals the spec-level value.
pub proof fn lemma_first_occurrence_unique(h: Seq<u8>, n: Seq<u8>, r: Option<int>)
    requires
        is_first_occurrence(h, n, r),
    ensures
        r == first_occurrence(h, n),
{
    lemma_first_occurrence_from_correct(h, n, 0);
    let fo = first_occurrence(h, n);
    match r {
        Some(i) => {
            match fo {
                Some(j) => {
                    if i < j {
                        assert(!occurs_at(h, n, i));
                    }
                    if j < i {
                        assert(!occurs_at(h, n, j));
                    }
                },
                None => {
                    assert(!occurs_at(h, n, i));
                },
            }
        },
        None => {
            match fo {
                Some(j) => {
                    assert(!occurs_at(h, n, j));
                },
                None => {},
            }
        },
    }
}

/// Relies on `memchr::memmem::find`: returns the index of the first
/// occurrence of `needle` inside `haystack`, and `None` exactly when the
/// needle does not occur (an empty needle occurs at position zero).
#[verifier::external_body]
fn memmem_find(haystack: &[u8], needle: &[u8]) -> (r: Option<usize>)
    ensures
        (match r {
            Some(i) => is_first_occurrence(haystack@, needle@, Some(i as int)),
            None => is_first_occurrence(haystack@, needle@, None),
        }),
{
    memchr::memmem::find(haystack, needle)
}

/// The first occurrence of `needle` in `haystack`, as the spec-level value.
fn find_first(haystack: &[u8], needle: &[u8]) -> (r: Option<usize>)
    ensures
        (match r {
            Some(i) => first_occurrence(haystack@, needle@) == Some(i as int) && i + needle@.len()
                <= haystack@.len(),
            None => first_occurrence(haystack@, needle@) is None,
        }),
{
    let r = memmem_find(haystack, needle);
    proof {
        match r {
            Some(i) => lemma_first_occurrence_unique(haystack@, needle@, Some(i as int)),
            None => lemma_first_occurrence_unique(haystack@, needle@, None),
        }
    }
    r
}

/// The little-endian bytes of a 64-bit address, least significant first: the
/// shape a pointer takes in the scanned memory itself.
pub open spec fn le_bytes8_spec(x: u64) -> Seq<u8> {
    seq![
        (x & 0xff) as u8,
        ((x >> 8) & 0xff) as u8,
        ((x >> 16) & 0xff) as u8,
        ((x >> 24) & 0xff) as u8,
        ((x >> 32) & 0xff) as u8,
        ((x >> 40) & 0xff) as u8,
        ((x >> 48) & 0xff) as u8,
        ((x >> 56) & 0xff) as u8,
    ]
}

/// The byte representation a pointer with value `x` has in memory.
pub fn le_bytes8(x: u64) -> (r: Vec<u8>)
    ensures
        r@ == le_bytes8_spec(x),
{
    let mut out: Vec<u8> = Vec::new();
    out.push((x & 0xff) as u8);
    out.push(((x >> 8) & 0xff) as u8);
    out.push(((x >> 16) & 0xff) as u8);
    out.push(((x >> 24) & 0xff) as u8);
    out.push(((x >> 32) & 0xff) as u8);
    out.push(((x >> 40) & 0xff) as u8);
    out.push(((x >> 48) & 0xff) as u8);
    out.push(((x >> 56) & 0xff) as u8);
    proof {
        assert(out@ =~= le_bytes8_spec(x));
    }
    out
}

/// The wide-character (UTF-16 little-endian) bytes of a text, as concrete
/// pattern positions: each character contributes its low byte and a zero.
pub open spec fn wide_pattern(s: Seq<char>) -> Seq<Option<u8>>
    decreases s.len(),
{
    if s.len() == 0 {
        Seq::empty()
    } else {
        wide_pattern(s.drop_last()) + seq![Some((((s.last() as u32) & 0xff) as u8)), Some(0u8)]
    }
}

pub proof fn lemma_wide_pattern_len(s: Seq<char>)
    ensures
        wide_pattern(s).len() == 2 * s.len(),
    decreases s.len(),
{
    if s.len() > 0 {
        lemma_wide_pattern_len(s.drop_last());
    }
}

/// One wide nul terminator, as concrete pattern positions.
pub open spec fn wide_nul() -> Seq<Option<u8>> {
    seq![Some(0u8), Some(0u8)]
}

/// A run of `k` wildcard positions.
pub open spec fn wildcard_run(k: nat) -> Seq<Option<u8>> {
    Seq::new(k, |i: int| None::<u8>)
}

/// The pattern that finds the first two name-table entries: the texts of the
/// two entries that every target lays out back to back, separated by one
/// entry's worth of leading padding, whose bytes are unknown.
pub open spec fn name_pattern_spec() -> Seq<Option<u8>> {
    wide_pattern("None"@) + wide_nul() + wildcard_run(FNAMEENTRY_PADDING as nat) + wide_pattern(
        "ByteProperty"@,
    ) + wide_nul()
}

fn push_wide(out: &mut Vec<Option<u8>>, s: &str)
    ensures
        final(out)@ == old(out)@ + wide_pattern(s@) + wide_nul(),
{
    let n = s.unicode_len();
    let ghost base = out@;
    let mut i: usize = 0;
    while i < n
        invariant
            i <= n,
            n == s@.len(),
            out@ == base + wide_pattern(s@.subrange(0, i as int)),
        decreases n - i,
    {
        let c = s.get_char(i);
        let u = c as u32;
        let b = (u & 0xff) as u8;
        proof {
            assert(u & 0xff < 256) by (bit_vector);
            assert(u & 0xff == u % 256) by (bit_vector);
        }
        out.push(Some(b));
        out.push(Some(0u8));
        proof {
            let pre = s@.subrange(0, i as int);
            let cur = s@.subrange(0, i + 1);
            assert(cur.drop_last() =~= pre);
            assert(cur.last() == s@[i as int]);
            assert(b == (((s@[i as int] as u32) & 0xff) as u8));
            assert(out@ =~= base + wide_pattern(cur));
        }
        i = i + 1;
    }
    proof {
        assert(s@.subrange(0, n as int) =~= s@);
    }
    out.push(Some(0u8));
    out.push(Some(0u8));
    proof {
        assert(out@ =~= base + wide_pattern(s@) + wide_nul());
    }
}

/// Builds the name-table pattern: the first entry's text, a wildcard run
/// covering one entry's leading padding, then the second entry's text.
pub fn name_pattern() -> (p: Vec<Option<u8>>)
    ensures
        p@ == name_pattern_spec(),
        p@.len() >= 1,
{
    let mut out: Vec<Option<u8>> = Vec::new();
    push_wide(&mut out, "None");
    let mut k: usize = 0;
    let ghost mid = out@;
    while k < FNAMEENTRY_PADDING
        invariant
            k <= FNAMEENTRY_PADDING,
            out@ == mid + wildcard_run(k as nat),
        decreases FNAMEENTRY_PADDING - k,
    {
        out.push(None);
        proof {
            assert(out@ =~= mid + wildcard_run((k + 1) as nat));
        }
        k = k + 1;
    }
    push_wide(&mut out, "ByteProperty");
    proof {
        assert(out@ =~= name_pattern_spec());
        lemma_wide_pattern_len("None"@);
        reveal_strlit("None");
        assert(out@.len() >= 1);
    }
    out
}

/// The first window, across the regions in order, that matches a pattern:
/// the index of the first region holding a match, with the first matching
/// offset inside it.
pub open spec fn scan_regions_spec(rs: Seq<Region>, pat: Seq<Option<u8>>, i: int) -> Option<
    (int, int),
>
    decreases rs.len() - i,
    when 0 <= i
{
    if i >= rs.len() {
        None
    } else {
        match first_pattern_match(pat, rs[i].bytes@) {
            Some(off) => Some((i, off)),
            None => scan_regions_spec(rs, pat, i + 1),
        }
    }
}

/// The first offset in `mem` where `pat` matches.
pub open spec fn first_pattern_match(pat: Seq<Option<u8>>, mem: Seq<u8>) -> Option<int> {
    first_pattern_match_from(pat, mem, 0)
}

pub open spec fn first_pattern_match_from(pat: Seq<Option<u8>>, mem: Seq<u8>, i: int) -> Option<
    int,
>
    decreases mem.len() - i,
    when 0 <= i
{
    if i + pat.len() > mem.len() {
        None
    } else if matches_at(pat, mem, i) {
        Some(i)
    } else {
        first_pattern_match_from(pat, mem, i + 1)
    }
}

pub proof fn lemma_first_pattern_match_from_correct(pat: Seq<Option<u8>>, mem: Seq<u8>, i: int)
    requires
        0 <= i,
    ensures
        (match first_pattern_match_from(pat, mem, i) {
            Some(j) => i <= j && matches_at(pat, mem, j) && forall|k: int|
                i <= k < j ==> !matches_at(pat, mem, k),
            None => forall|k: int| k >= i ==> !matches_at(pat, mem, k),
        }),
    decreases mem.len() - i,
{
    if i + pat.len() > mem.len() {
        assert forall|k: int| k >= i implies !matches_at(pat, mem, k) by {}
    } else if matches_at(pat, mem, i) {
    } else {
        lemma_first_pattern_match_from_correct(pat, mem, i + 1);
    }
}

/// The first pattern match is determined: any result satisfying the
/// first-match characterization equals the spec-level value.
pub proof fn lemma_first_pattern_match_unique(pat: Seq<Option<u8>>, mem: Seq<u8>, r: Option<int>)
    requires
        (match r {
            Some(i) => matches_at(pat, mem, i) && forall|j: int| 0 <= j < i ==> !matches_at(
                pat,
                mem,
                j,
            ),
            None => forall|j: int| !matches_at(pat, mem, j),
        }),
    ensures
        r == first_pattern_match(pat, mem),
{
    lemma_first_pattern_match_from_correct(pat, mem, 0);
    let fo = first_pattern_match(pat, mem);
    match r {
        Some(i) => {
            match fo {
                Some(j) => {
                    if i < j {
                        assert(!matches_at(pat, mem, i));
                    }
                    if j < i {
                        assert(!matches_at(pat, mem, j));
                    }
                },
                None => {
                    assert(!matches_at(pat, mem, i));
                },
            }
        },
        None => {
            match fo {
                Some(j) => {
                    assert(!matches_at(pat, mem, j));
                },
                None => {},
            }
        },
    }
}

fn scan_regions(rs: &Vec<Region>, pat: &[Option<u8>], i: usize) -> (r: Option<(usize, usize)>)
    requires
        i <= rs@.len(),
        pat@.len() >= 1,
    ensures
        (match r {
            Some((ri, off)) => {
                &&& scan_regions_spec(rs@, pat@, i as int) == Some((ri as int, off as int))
                &&& ri < rs@.len()
                &&& off + pat@.len() <= rs@[ri as int].bytes@.len()
            },
            None => scan_regions_spec(rs@, pat@, i as int) is None,
        }),
    decreases rs@.len() - i,
{
    if i >= rs.len() {
        return None;
    }
    let region = &rs[i];
    let m = find_pattern(pat, region.bytes.as_slice());
    match m {
        Some(off) => {
            proof {
                lemma_first_pattern_match_unique(pat@, region.bytes@, Some(off as int));
            }
            Some((i, off))
        },
        None => {
            proof {
                lemma_first_pattern_match_unique(pat@, region.bytes@, None);
            }
            scan_regions(rs, pat, i + 1)
        },
    }
}

/// The pointer-resolution pass: each region's first occurrence of the
/// entry-address bytes is a candidate backing-array location; the first
/// candidate whose own address bytes occur inside the module image is the
/// anchor, at its position inside the image.
pub open spec fn resolve_pointer_spec(
    rs: Seq<Region>,
    module: Region,
    needle: Seq<u8>,
    i: int,
) -> Option<usize>
    decreases rs.len() - i,
    when 0 <= i
{
    if i >= rs.len() {
        None
    } else {
        match first_occurrence(rs[i].bytes@, needle) {
            None => resolve_pointer_spec(rs, module, needle, i + 1),
            Some(off) => {
                let p = (rs[i].base + off) as usize;
                match first_occurrence(module.bytes@, le_bytes8_spec(p as u64)) {
                    Some(moff) => Some((module.base + moff) as usize),
                    None => resolve_pointer_spec(rs, module, needle, i + 1),
                }
            },
        }
    }
}

fn resolve_pointer(rs: &Vec<Region>, module: &Region, needle: &[u8], i: usize) -> (r: Option<usize>)
    requires
        i <= rs@.len(),
        wf_regions(rs@),
        module.wf(),
    ensures
        r == resolve_pointer_spec(rs@, *module, needle@, i as int),
    decreases rs@.len() - i,
{
    if i >= rs.len() {
        return None;
    }
    let region = &rs[i];
    assert(region.wf());
    match find_first(region.bytes.as_slice(), needle) {
        None => resolve_pointer(rs, module, needle, i + 1),
        Some(off) => {
            let p: usize = region.base + off;
            let pbytes = le_bytes8(p as u64);
            match find_first(module.bytes.as_slice(), pbytes.as_slice()) {
                Some(moff) => Some(module.base + moff),
                None => resolve_pointer(rs, module, needle, i + 1),
            }
        },
    }
}

/// Where the name-table anchor resolves to, for a given snapshot: the
/// name-entry pattern is sought across the regions; the match address, less
/// the entry padding, is the first entry's address; the address of a pointer
/// to that entry is then sought; the first such pointer location whose own
/// address appears inside the module image marks the name table's
/// backing-array field there.
pub open spec fn gnames_spec(rs: Seq<Region>, module: Region) -> Option<usize> {
    match scan_regions_spec(rs, name_pattern_spec(), 0) {
        None => None,
        Some((ri, off)) => {
            let addr = rs[ri].base + off;
            if addr < FNAMEENTRY_PADDING {
                None
            } else {
                resolve_pointer_spec(
                    rs,
                    module,
                    le_bytes8_spec((addr - FNAMEENTRY_PADDING) as u64),
                    0,
                )
            }
        },
    }
}

/// Resolves the name-table anchor inside a process-memory snapshot, with no
/// prior known address. `None` is the unrecoverable discovery failure: no
/// step of the inference found a match.
pub fn gnames(rs: &Vec<Region>, module: &Region) -> (r: Option<usize>)
    requires
        wf_regions(rs@),
        module.wf(),
    ensures
        r == gnames_spec(rs@, *module),
{
    let pat = name_pattern();
    match scan_regions(rs, pat.as_slice(), 0) {
        None => None,
        Some((ri, off)) => {
            let region = &rs[ri];
            assert(region.wf());
            let addr: usize = region.base + off;
            if addr < FNAMEENTRY_PADDING {
                None
            } else {
                let entry: usize = addr - FNAMEENTRY_PADDING;
                let needle = le_bytes8(entry as u64);
                resolve_pointer(rs, module, needle.as_slice(), 0)
            }
        },
    }
}

/// Where the object table sits for a resolved name-table anchor: at the
/// fixed configured offset past it. `None` when the anchor itself could not
/// be resolved, or the offset address does not fit.
pub open spec fn gobjects_spec(rs: Seq<Region>, module: Region) -> Option<usize> {
    match gnames_spec(rs, module) {
        None => None,
        Some(g) => {
            if g + GOBJECTS_OFFSET <= usize::MAX {
                Some((g + GOBJECTS_OFFSET) as usize)
            } else {
                None
            }
        },
    }
}

/// Resolves the object-table anchor: the fixed offset past the name-table
/// anchor.
pub fn gobjects(rs: &Vec<Region>, module: &Region) -> (r: Option<usize>)
    requires
        wf_regions(rs@),
        module.wf(),
    ensures
        r == gobjects_spec(rs@, *module),
{
    match gnames(rs, module) {
        None => None,
        Some(g) => {
            if g <= usize::MAX - GOBJECTS_OFFSET {
                Some(g + GOBJECTS_OFFSET)
            } else {
                None
            }
        },
    }
}

} // verus!
