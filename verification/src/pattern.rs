//! Byte patterns with wildcards, parsed from a human-readable hex text, and a
//! left-to-right window scan that finds the first match inside one contiguous
//! memory region.
use vstd::prelude::*;

verus! {

/// Why a pattern text failed to parse.
#[derive(Clone, Copy, PartialEq, Eq, Structural, Debug)]
pub enum PatternError {
    /// A token holds a character that is not a hexadecimal digit.
    InvalidDigit,
    /// A token is all hexadecimal digits but its value does not fit in a byte.
    Overflow,
}

/// The characters that separate tokens of a pattern text.
pub open spec fn is_ascii_space(c: char) -> bool {
    c == ' ' || c == '\t' || c == '\n' || c == '\u{c}' || c == '\r'
}

pub open spec fn is_hex_digit(c: char) -> bool {
    (48 <= c as u32 && c as u32 <= 57)  // '0' ..= '9'
    || (97 <= c as u32 && c as u32 <= 102)  // 'a' ..= 'f'
    || (65 <= c as u32 && c as u32 <= 70)  // 'A' ..= 'F'
}

pub open spec fn hex_digit_value(c: char) -> int {
    if 48 <= c as u32 && c as u32 <= 57 {
        c as u32 - 48
    } else if 97 <= c as u32 && c as u32 <= 102 {
        c as u32 - 87
    } else {
        c as u32 - 55
    }
}

/// The value of a string of hexadecimal digits, most significant first.
pub open spec fn hex_val(d: Seq<char>) -> int
    decreases d.len(),
{
    if d.len() == 0 {
        0
    } else {
        hex_val(d.drop_last()) * 16 + hex_digit_value(d.last())
    }
}

pub open spec fn all_hex(d: Seq<char>) -> bool {
    forall|i: int| 0 <= i < d.len() ==> is_hex_digit(d[i])
}

/// The digits of a token, after an optional leading sign.
pub open spec fn token_digits(t: Seq<char>) -> Seq<char> {
    if t.len() > 0 && t[0] == '+' {
        t.subrange(1, t.len() as int)
    } else {
        t
    }
}

/// How one whitespace-delimited token of a pattern text reads: `??` is a
/// wildcard; anything else must be a hexadecimal byte, with an optional
/// leading `+`.
pub open spec fn parse_token(t: Seq<char>) -> Result<Option<u8>, PatternError> {
    if t.len() == 2 && t[0] == '?' && t[1] == '?' {
        Ok(None)
    } else {
        let d = token_digits(t);
        if d.len() == 0 || !all_hex(d) {
            Err(PatternError::InvalidDigit)
        } else if hex_val(d) > 255 {
            Err(PatternError::Overflow)
        } else {
            Ok(Some(hex_val(d) as u8))
        }
    }
}

/// The first position at or after `i` holding a non-space character (or the
/// end of the text).
pub open spec fn skip_spaces(s: Seq<char>, i: int) -> int
    decreases s.len() - i,
{
    if i < s.len() && is_ascii_space(s[i]) {
        skip_spaces(s, i + 1)
    } else {
        i
    }
}

/// The first position at or after `i` holding a space (or the end of the
/// text).
pub open spec fn token_end(s: Seq<char>, i: int) -> int
    decreases s.len() - i,
{
    if i < s.len() && !is_ascii_space(s[i]) {
        token_end(s, i + 1)
    } else {
        i
    }
}

pub proof fn lemma_skip_spaces_bounds(s: Seq<char>, i: int)
    requires
        0 <= i <= s.len(),
    ensures
        i <= skip_spaces(s, i) <= s.len(),
    decreases s.len() - i,
{
    if i < s.len() && is_ascii_space(s[i]) {
        lemma_skip_spaces_bounds(s, i + 1);
    }
}

pub proof fn lemma_token_end_bounds(s: Seq<char>, i: int)
    requires
        0 <= i <= s.len(),
    ensures
        i <= token_end(s, i) <= s.len(),
    decreases s.len() - i,
{
    if i < s.len() && !is_ascii_space(s[i]) {
        lemma_token_end_bounds(s, i + 1);
    }
}

/// A space skip stops at the end of the text or on a non-space character.
pub proof fn lemma_skip_spaces_stops(s: Seq<char>, i: int)
    requires
        0 <= i <= s.len(),
    ensures
        skip_spaces(s, i) == s.len() || (skip_spaces(s, i) < s.len() && !is_ascii_space(
            s[skip_spaces(s, i)],
        )),
    decreases s.len() - i,
{
    lemma_skip_spaces_bounds(s, i);
    if i < s.len() && is_ascii_space(s[i]) {
        lemma_skip_spaces_stops(s, i + 1);
    }
}

/// How a whole pattern text reads from position `i` on: tokens are taken in
/// order, and the first token that fails to parse decides the error.
pub open spec fn parse_from(s: Seq<char>, i: int) -> Result<Seq<Option<u8>>, PatternError>
    decreases s.len() - i,
    when 0 <= i <= s.len()
    via parse_from_decreases
{
    let j = skip_spaces(s, i);
    if j >= s.len() {
        Ok(Seq::empty())
    } else {
        let k = token_end(s, j);
        match parse_token(s.subrange(j, k)) {
            Err(e) => Err(e),
            Ok(v) => match parse_from(s, k) {
                Err(e) => Err(e),
                Ok(rest) => Ok(seq![v] + rest),
            },
        }
    }
}

#[via_fn]
proof fn parse_from_decreases(s: Seq<char>, i: int) {
    lemma_skip_spaces_bounds(s, i);
    let j = skip_spaces(s, i);
    if j < s.len() {
        lemma_token_end_bounds(s, j + 1);
    }
}

/// The parsed form of a pattern text: `Ok` exactly when every token is `??`
/// or a hexadecimal byte, with the bytes and wildcards in token order.
pub open spec fn parse_pattern_spec(s: Seq<char>) -> Result<Seq<Option<u8>>, PatternError> {
    parse_from(s, 0)
}

fn skip_spaces_exec(s: &str, i: usize, n: usize) -> (j: usize)
    requires
        n == s@.len(),
        i <= n,
    ensures
        j == skip_spaces(s@, i as int),
        i <= j <= n,
{
    let mut j: usize = i;
    loop
        invariant
            i <= j <= n,
            n == s@.len(),
            skip_spaces(s@, i as int) == skip_spaces(s@, j as int),
        ensures
            i <= j <= n,
            j == skip_spaces(s@, i as int),
        decreases n - j,
    {
        if j < n {
            let c = s.get_char(j);
            let u = c as u32;
            let sp = u == 32 || u == 9 || u == 10 || u == 12 || u == 13;
            assert(sp == is_ascii_space(s@[j as int]));
            if sp {
                j = j + 1;
                continue ;
            }
        }
        break ;
    }
    j
}

fn token_end_exec(s: &str, i: usize, n: usize) -> (j: usize)
    requires
        n == s@.len(),
        i <= n,
    ensures
        j == token_end(s@, i as int),
        i <= j <= n,
{
    let mut j: usize = i;
    loop
        invariant
            i <= j <= n,
            n == s@.len(),
            token_end(s@, i as int) == token_end(s@, j as int),
        ensures
            i <= j <= n,
            j == token_end(s@, i as int),
        decreases n - j,
    {
        if j < n {
            let c = s.get_char(j);
            let u = c as u32;
            let sp = u == 32 || u == 9 || u == 10 || u == 12 || u == 13;
            assert(sp == is_ascii_space(s@[j as int]));
            if !sp {
                j = j + 1;
                continue ;
            }
        }
        break ;
    }
    j
}

/// Each hexadecimal prefix of a digit string is worth no more than the whole.
proof fn lemma_hex_val_prefix_le(d: Seq<char>, m: int)
    requires
        0 <= m <= d.len(),
        all_hex(d),
    ensures
        hex_val(d.subrange(0, m)) <= hex_val(d),
    decreases d.len() - m,
{
    if m < d.len() {
        lemma_hex_val_prefix_le(d, m + 1);
        let p = d.subrange(0, m + 1);
        assert(p.drop_last() =~= d.subrange(0, m));
        assert(hex_val(p) == hex_val(d.subrange(0, m)) * 16 + hex_digit_value(p.last()));
        assert(0 <= hex_digit_value(p.last()) < 16);
        assert(hex_val(d.subrange(0, m)) >= 0) by {
            lemma_hex_val_nonneg(d.subrange(0, m));
        }
    } else {
        assert(d.subrange(0, m) =~= d);
    }
}

proof fn lemma_hex_val_nonneg(d: Seq<char>)
    ensures
        hex_val(d) >= 0 || !all_hex(d),
    decreases d.len(),
{
    if d.len() > 0 {
        lemma_hex_val_nonneg(d.drop_last());
        assert(all_hex(d) ==> all_hex(d.drop_last())) by {
            if all_hex(d) {
                assert(forall|i: int|
                    0 <= i < d.drop_last().len() ==> is_hex_digit(#[trigger] d.drop_last()[i]));
            }
        }
    }
}

#[verifier::loop_isolation(false)]
fn parse_token_exec(s: &str, j: usize, k: usize) -> (r: Result<Option<u8>, PatternError>)
    requires
        j < k <= s@.len(),
    ensures
        r == parse_token(s@.subrange(j as int, k as int)),
{
    let ghost t = s@.subrange(j as int, k as int);
    if k - j == 2 {
        let c0 = s.get_char(j);
        let c1 = s.get_char(j + 1);
        if c0 == '?' && c1 == '?' {
            return Ok(None);
        }
        assert(!(t.len() == 2 && t[0] == '?' && t[1] == '?'));
    }
    // Skip an optional leading sign.
    let first = s.get_char(j);
    let d_start: usize = if first == '+' {
        j + 1
    } else {
        j
    };
    let ghost d = token_digits(t);
    proof {
        assert(t[0] == first);
        if first == '+' {
            assert(d =~= s@.subrange(d_start as int, k as int));
        } else {
            assert(d =~= s@.subrange(d_start as int, k as int));
        }
    }
    if d_start == k {
        return Err(PatternError::InvalidDigit);
    }
    // All characters must be hexadecimal digits.
    let mut i: usize = d_start;
    while i < k
        invariant
            d_start <= i <= k,
            j < k <= s@.len(),
            d_start <= k,
            d =~= s@.subrange(d_start as int, k as int),
            forall|m: int| 0 <= m < i - d_start ==> is_hex_digit(d[m]),
        decreases k - i,
    {
        let c = s.get_char(i);
        let u = c as u32;
        let hex = (48 <= u && u <= 57) || (97 <= u && u <= 102) || (65 <= u && u <= 70);
        assert(hex == is_hex_digit(d[i - d_start]));
        if !hex {
            return Err(PatternError::InvalidDigit);
        }
        i = i + 1;
    }
    assert(all_hex(d));
    // Accumulate the value, most significant digit first.
    let mut acc: u32 = 0;
    let mut i: usize = d_start;
    while i < k
        invariant
            d_start <= i <= k,
            j < k <= s@.len(),
            d =~= s@.subrange(d_start as int, k as int),
            all_hex(d),
            acc == hex_val(d.subrange(0, i - d_start)),
            acc <= 255,
        decreases k - i,
    {
        let c = s.get_char(i);
        let u = c as u32;
        assert(d[i - d_start] == s@.subrange(d_start as int, k as int)[i - d_start]);
        assert(s@.subrange(d_start as int, k as int)[i - d_start] == s@[i as int]);
        assert(c == d[i - d_start] && is_hex_digit(c));
        let v: u32 = if 48 <= u && u <= 57 {
            u - 48
        } else if 97 <= u && u <= 102 {
            u - 87
        } else {
            u - 55
        };
        assert(v == hex_digit_value(d[i - d_start]));
        let next: u32 = acc * 16 + v;
        proof {
            let m = i - d_start;
            assert(d.subrange(0, m + 1).drop_last() =~= d.subrange(0, m));
            assert(d.subrange(0, m + 1).last() == d[m]);
            assert(next == hex_val(d.subrange(0, m + 1)));
        }
        if next > 255 {
            proof {
                lemma_hex_val_prefix_le(d, i + 1 - d_start);
            }
            return Err(PatternError::Overflow);
        }
        acc = next;
        i = i + 1;
    }
    assert(d.subrange(0, k - d_start) =~= d);
    Ok(Some(acc as u8))
}

/// Parses a pattern text: whitespace-separated tokens, each either `??` (a
/// wildcard position) or a hexadecimal byte.
pub fn parse_pattern(pat: &str) -> (r: Result<Vec<Option<u8>>, PatternError>)
    ensures
        (match r {
            Ok(v) => parse_pattern_spec(pat@) == Ok::<Seq<Option<u8>>, PatternError>(v@),
            Err(e) => parse_pattern_spec(pat@) == Err::<Seq<Option<u8>>, PatternError>(e),
        }),
{
    let n = pat.unicode_len();
    parse_rec(pat, 0, n)
}

fn parse_rec(s: &str, i: usize, n: usize) -> (r: Result<Vec<Option<u8>>, PatternError>)
    requires
        n == s@.len(),
        i <= n,
    ensures
        (match r {
            Ok(v) => parse_from(s@, i as int) == Ok::<Seq<Option<u8>>, PatternError>(v@),
            Err(e) => parse_from(s@, i as int) == Err::<Seq<Option<u8>>, PatternError>(e),
        }),
    decreases n - i,
{
    let j = skip_spaces_exec(s, i, n);
    if j >= n {
        return Ok(Vec::new());
    }
    let k = token_end_exec(s, j, n);
    proof {
        // The token is non-empty: the skip stopped on a non-space character.
        lemma_skip_spaces_stops(s@, i as int);
        assert(!is_ascii_space(s@[j as int]));
        assert(token_end(s@, j as int) == token_end(s@, j as int + 1));
        lemma_token_end_bounds(s@, j as int + 1);
        assert(k > j);
    }
    match parse_token_exec(s, j, k) {
        Err(e) => Err(e),
        Ok(v) => {
            match parse_rec(s, k, n) {
                Err(e) => Err(e),
                Ok(rest) => {
                    let mut out: Vec<Option<u8>> = Vec::new();
                    out.push(v);
                    let mut rest = rest;
                    let ghost prefix = out@;
                    let mut t: usize = 0;
                    let rest_len = rest.len();
                    while t < rest_len
                        invariant
                            t <= rest_len,
                            rest_len == rest@.len(),
                            out@ == prefix + rest@.subrange(0, t as int),
                            prefix == seq![v],
                        decreases rest_len - t,
                    {
                        let x = rest[t];
                        out.push(x);
                        proof {
                            assert(rest@.subrange(0, t + 1).drop_last() =~= rest@.subrange(
                                0,
                                t as int,
                            ));
                            assert(out@ =~= prefix + rest@.subrange(0, t + 1));
                        }
                        t = t + 1;
                    }
                    proof {
                        assert(rest@.subrange(0, rest_len as int) =~= rest@);
                        assert(out@ =~= seq![v] + rest@);
                    }
                    Ok(out)
                },
            }
        },
    }
}

/// Whether a pattern matches memory at a given offset: the window fits, and
/// every concrete pattern byte equals the memory byte under it; wildcard
/// positions always match.
pub open spec fn matches_at(pat: Seq<Option<u8>>, mem: Seq<u8>, off: int) -> bool {
    &&& 0 <= off
    &&& off + pat.len() <= mem.len()
    &&& forall|k: int|
        0 <= k < pat.len() ==> (#[trigger] pat[k] matches Some(b) ==> mem[off + k] == b)
}

/// Whether a pattern agrees with memory over their common prefix, wildcard
/// positions always agreeing.
pub open spec fn matches_prefix(pat: Seq<Option<u8>>, mem: Seq<u8>) -> bool {
    forall|k: int|
        0 <= k < pat.len() && k < mem.len() ==> (#[trigger] pat[k] matches Some(b) ==> mem[k] == b)
}

/// A pattern of wildcards alone matches at every offset whose window fits; in
/// particular, at offset zero whenever the pattern is no longer than the
/// memory.
pub proof fn lemma_all_wildcards_match(pat: Seq<Option<u8>>, mem: Seq<u8>, off: int)
    requires
        forall|k: int| 0 <= k < pat.len() ==> pat[k] is None,
        0 <= off,
        off + pat.len() <= mem.len(),
    ensures
        matches_at(pat, mem, off),
{
}

/// A pattern never matches at an offset that lays one of its concrete bytes
/// over a differing memory byte.
pub proof fn lemma_mismatch_never_matches(pat: Seq<Option<u8>>, mem: Seq<u8>, off: int, k: int)
    requires
        0 <= k < pat.len(),
        pat[k] is Some,
        0 <= off + k < mem.len(),
        mem[off + k] != pat[k]->0,
    ensures
        !matches_at(pat, mem, off),
{
}

/// Tests a pattern against the start of a memory window, wildcards always
/// matching; positions past the shorter of the two are ignored.
pub fn pat_matches(pat: &[Option<u8>], mem: &[u8]) -> (r: bool)
    ensures
        r == matches_prefix(pat@, mem@),
{
    let plen = pat.len();
    let mlen = mem.len();
    let lim: usize = if plen < mlen {
        plen
    } else {
        mlen
    };
    let mut k: usize = 0;
    while k < lim
        invariant
            k <= lim,
            lim == if pat@.len() < mem@.len() {
                pat@.len()
            } else {
                mem@.len()
            },
            forall|m: int|
                0 <= m < k ==> (#[trigger] pat@[m] matches Some(b) ==> mem@[m] == b),
        decreases lim - k,
    {
        match pat[k] {
            Some(b) => {
                if mem[k] != b {
                    return false;
                }
            },
            None => {},
        }
        k = k + 1;
    }
    true
}

/// Slides a pattern over a memory region and returns the offset of the first
/// matching window, or `None` when no window matches.
pub fn find_pattern(pat: &[Option<u8>], mem: &[u8]) -> (r: Option<usize>)
    requires
        pat@.len() >= 1,
    ensures
        (match r {
            Some(off) => matches_at(pat@, mem@, off as int) && forall|j: int|
                0 <= j < off ==> !matches_at(pat@, mem@, j),
            None => forall|j: int| !matches_at(pat@, mem@, j),
        }),
{
    let plen = pat.len();
    let mlen = mem.len();
    if plen > mlen {
        return None;
    }
    let last = mlen - plen;
    let mut off: usize = 0;
    while off <= last
        invariant
            plen == pat@.len(),
            mlen == mem@.len(),
            plen <= mlen,
            last == mlen - plen,
            off <= last + 1,
            forall|j: int| 0 <= j < off ==> !matches_at(pat@, mem@, j),
        decreases last + 1 - off,
    {
        let mut k: usize = 0;
        let mut ok = true;
        while k < plen
            invariant
                k <= plen,
                plen == pat@.len(),
                mlen == mem@.len(),
                off + plen <= mlen,
                ok ==> forall|m: int|
                    0 <= m < k ==> (#[trigger] pat@[m] matches Some(b) ==> mem@[off + m] == b),
                !ok ==> !matches_at(pat@, mem@, off as int),
            decreases plen - k,
        {
            match pat[k] {
                Some(b) => {
                    if mem[off + k] != b {
                        proof {
                            lemma_mismatch_never_matches(pat@, mem@, off as int, k as int);
                        }
                        ok = false;
                        k = plen;
                        continue ;
                    }
                },
                None => {},
            }
            k = k + 1;
        }
        if ok {
            assert(matches_at(pat@, mem@, off as int));
            return Some(off);
        }
        off = off + 1;
    }
    assert(forall|j: int| matches_at(pat@, mem@, j) ==> 0 <= j <= last as int);
    None
}

} // verus!
