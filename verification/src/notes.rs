//! Run notes and inline markers.
//!
//! During a run, outside scripts write plain scratch files: one free-form
//! notes file and one file per named short field.  At capture stop the
//! ingestor turns them into a single note bundle.  A line of the notes file
//! is an annotation exactly when it contains the literal `"#marker "`: its
//! tag is the text between that mark and the next `'#'` (defaulting to
//! `"marker"`), its text is the tag, and its time comes from an
//! `"[elapsed Ns]"` bracket, zero when absent or unparsable.  Other lines
//! stay part of the prose body only.
//!
//! The file reads and deletions live in the unverified shell; everything
//! here is pure text work, with times in integer microseconds.

use vstd::prelude::*;

use crate::annotations::{Annotation, AnnotationV, views_of};
use crate::store::RecordingNotesContent;

verus! {

/// Cap on the bytes read from any one scratch file, a guard against a
/// runaway writer.
pub const NOTES_MAX_BYTES: usize = 65536;

/// The pattern that makes a line an annotation.
pub const MARKER_MARK: &'static str = "#marker ";

/// The pattern that opens an elapsed-time bracket.
pub const ELAPSED_MARK: &'static str = "[elapsed ";

// ------------------------------------------------------------------ scanning

/// `pat` occurs in `s` at position `i`.
pub open spec fn occurs_at(s: Seq<char>, pat: Seq<char>, i: int) -> bool {
    0 <= i && i + pat.len() <= s.len() && s.subrange(i, i + pat.len()) == pat
}

/// First position at or after `i` where `pat` occurs, or -1.
pub open spec fn find_from(s: Seq<char>, pat: Seq<char>, i: int) -> int
    decreases s.len() - i,
{
    if pat.len() <= 0 || i < 0 || i + pat.len() > s.len() {
        -1
    } else if occurs_at(s, pat, i) {
        i
    } else {
        find_from(s, pat, i + 1)
    }
}

/// First position at or after `i` holding character `c`, or the length.
pub open spec fn find_char_or_end(s: Seq<char>, c: char, i: int) -> int
    decreases s.len() - i,
{
    if i < 0 || i >= s.len() {
        s.len() as int
    } else if s[i] == c {
        i
    } else {
        find_char_or_end(s, c, i + 1)
    }
}

/// A found pattern position is at or after the start of the search.
pub proof fn lemma_find_from_ge(s: Seq<char>, pat: Seq<char>, i: int)
    ensures
        find_from(s, pat, i) == -1 || find_from(s, pat, i) >= i,
    decreases s.len() - i,
{
    if !(pat.len() <= 0 || i < 0 || i + pat.len() > s.len()) && !occurs_at(s, pat, i) {
        lemma_find_from_ge(s, pat, i + 1);
    }
}

/// A found character position is between the start and the length.
pub proof fn lemma_find_char_bounds(s: Seq<char>, c: char, i: int)
    requires
        0 <= i <= s.len(),
    ensures
        i <= find_char_or_end(s, c, i) <= s.len(),
        find_char_or_end(s, c, i) < s.len() ==> s[find_char_or_end(s, c, i)] == c,
    decreases s.len() - i,
{
    if i < s.len() && s[i] != c {
        lemma_find_char_bounds(s, c, i + 1);
    }
}

/// Whitespace the trimming strips (ASCII).
pub open spec fn is_space(c: char) -> bool {
    c == ' ' || c == '\t' || c == '\r'
}

/// First non-space position in `[i, j)`, or `j`.
pub open spec fn trim_start_in(s: Seq<char>, i: int, j: int) -> int
    decreases j - i,
{
    if i >= j {
        j
    } else if !is_space(s[i]) {
        i
    } else {
        trim_start_in(s, i + 1, j)
    }
}

/// One past the last non-space position in `[i, j)`, or `i`.
pub open spec fn trim_end_in(s: Seq<char>, i: int, j: int) -> int
    decreases j - i,
{
    if j <= i {
        i
    } else if !is_space(s[j - 1]) {
        j
    } else {
        trim_end_in(s, i, j - 1)
    }
}

/// One past the last character of `[i, j)` that is not a trailing `'s'`.
pub open spec fn strip_s_end_in(s: Seq<char>, i: int, j: int) -> int
    decreases j - i,
{
    if j <= i {
        i
    } else if s[j - 1] != 's' {
        j
    } else {
        strip_s_end_in(s, i, j - 1)
    }
}

/// Trimming yields a subrange of the region.
pub proof fn lemma_trim_bounds(s: Seq<char>, i: int, j: int)
    requires
        0 <= i <= j,
    ensures
        i <= trim_start_in(s, i, j) <= j,
        i <= trim_end_in(s, i, j) <= j,
        i <= strip_s_end_in(s, i, j) <= j,
    decreases j - i,
{
    if i < j {
        lemma_trim_bounds(s, i + 1, j);
        lemma_trim_bounds(s, i, j - 1);
    }
}

// ------------------------------------------------------------------ numbers

/// A decimal digit.
pub open spec fn is_digit(c: char) -> bool {
    '0' <= c && c <= '9'
}

/// Every character of `s` is a digit.
pub open spec fn all_digits(s: Seq<char>) -> bool {
    forall|i: int| 0 <= i < s.len() ==> is_digit(#[trigger] s[i])
}

/// Value of a digit string, most significant first.
pub open spec fn digits_val(s: Seq<char>) -> int
    decreases s.len(),
{
    if s.len() == 0 {
        0
    } else {
        digits_val(s.drop_last()) * 10 + (s.last() as u32 - 48)
    }
}

/// Powers of ten.
pub open spec fn ten_pow(n: nat) -> int
    decreases n,
{
    if n == 0 {
        1
    } else {
        10 * ten_pow((n - 1) as nat)
    }
}

/// A digit string's value is bounded by ten to its length.
pub proof fn lemma_digits_val_bound(s: Seq<char>)
    requires
        all_digits(s),
    ensures
        0 <= digits_val(s) < ten_pow(s.len()),
    decreases s.len(),
{
    if s.len() > 0 {
        assert(all_digits(s.drop_last()));
        lemma_digits_val_bound(s.drop_last());
        assert(is_digit(s.last()));
    }
}

/// Digits of the whole number of seconds the parse accepts.
pub const MAX_SECOND_DIGITS: usize = 12;

/// Microsecond value of a decimal-seconds string: optional fractional part
/// after one `'.'`; at most twelve whole-second digits; fractional digits
/// beyond microsecond resolution are ignored.
pub open spec fn spec_parse_seconds_us(s: Seq<char>) -> Option<i64> {
    let dot = find_char_or_end(s, '.', 0);
    let ip = s.subrange(0, dot);
    let fp = if dot == s.len() {
        Seq::<char>::empty()
    } else {
        s.subrange(dot + 1, s.len() as int)
    };
    if 1 <= ip.len() <= MAX_SECOND_DIGITS && all_digits(ip) && all_digits(fp) {
        let k = if fp.len() <= 6 {
            fp.len() as int
        } else {
            6
        };
        Some((digits_val(ip) * 1_000_000 + digits_val(fp.take(k)) * ten_pow((6 - k) as nat)) as i64)
    } else {
        None
    }
}

/// Absolute position of the first `c` in `[a, b)` of `s`, or `b`.
fn find_char_in(s: &str, a: usize, b: usize, c: char) -> (r: usize)
    requires
        a <= b <= s@.len(),
    ensures
        a <= r <= b,
        r as int - a == find_char_or_end(s@.subrange(a as int, b as int), c, 0),
        r < b ==> s@[r as int] == c,
{
    let ghost region = s@.subrange(a as int, b as int);
    let mut i = a;
    while i < b
        invariant
            a <= i <= b <= s@.len(),
            region == s@.subrange(a as int, b as int),
            find_char_or_end(region, c, 0) == find_char_or_end(region, c, i - a),
        decreases b - i,
    {
        proof {
            assert(region[i - a] == s@[i as int]);
        }
        if s.get_char(i) == c {
            return i;
        }
        i = i + 1;
    }
    b
}

/// Parse the region `[a, b)` of `s` as decimal seconds, in microseconds.
fn parse_seconds_us(s: &str, a: usize, b: usize) -> (r: Option<i64>)
    requires
        a <= b <= s@.len(),
    ensures
        r == spec_parse_seconds_us(s@.subrange(a as int, b as int)),
{
    let ghost region = s@.subrange(a as int, b as int);
    proof {
        lemma_find_char_bounds(region, '.', 0);
    }
    let dot = find_char_in(s, a, b, '.');
    let ghost sdot = find_char_or_end(region, '.', 0);
    proof {
        assert(sdot == dot - a);
    }
    // whole-second digits
    let ip_len = dot - a;
    if ip_len < 1 || ip_len > MAX_SECOND_DIGITS {
        proof {
            assert(region.subrange(0, sdot).len() == ip_len);
        }
        return None;
    }
    let mut whole: u64 = 0;
    let mut j = a;
    while j < dot
        invariant
            a <= j <= dot <= b <= s@.len(),
            1 <= dot - a <= MAX_SECOND_DIGITS,
            sdot == dot - a,
            sdot == find_char_or_end(region, '.', 0),
            region == s@.subrange(a as int, b as int),
            all_digits(region.subrange(0, j - a)),
            whole as int == digits_val(region.subrange(0, j - a)),
            (whole as int) < ten_pow((j - a) as nat),
        decreases dot - j,
    {
        let c = s.get_char(j);
        proof {
            assert(region[j - a] == s@[j as int]);
        }
        if !(c >= '0' && c <= '9') {
            proof {
                assert(region.subrange(0, sdot)[j - a] == region[j - a]);
                assert(!is_digit(region[j - a]));
                assert(!all_digits(region.subrange(0, sdot)));
                assert(spec_parse_seconds_us(region) is None);
            }
            return None;
        }
        proof {
            assert(region.subrange(0, j - a + 1).drop_last() =~= region.subrange(0, j - a));
            assert(region.subrange(0, j - a + 1).last() == region[j - a]);
            lemma_ten_pow_mono((j + 1 - a) as nat, 12);
            lemma_ten_pow_12();
        }
        whole = whole * 10 + ((c as u32) - 48) as u64;
        j = j + 1;
    }
    proof {
        assert(region.subrange(0, sdot) =~= region.subrange(0, dot - a));
        lemma_digits_val_bound(region.subrange(0, dot - a));
        lemma_ten_pow_mono((dot - a) as nat, 12);
        lemma_ten_pow_12();
    }
    // fractional digits, microsecond resolution
    let fstart = if dot < b {
        dot + 1
    } else {
        b
    };
    let ghost fp = if sdot == region.len() {
        Seq::<char>::empty()
    } else {
        region.subrange(sdot + 1, region.len() as int)
    };
    proof {
        assert(fp.len() == b - fstart);
    }
    let mut frac: u64 = 0;
    let mut taken: usize = 0;
    let mut j = fstart;
    while j < b
        invariant
            fstart <= j <= b <= s@.len(),
            a <= dot <= b,
            fstart == if dot < b {
                dot + 1int
            } else {
                b as int
            },
            sdot == dot - a,
            sdot == find_char_or_end(region, '.', 0),
            region == s@.subrange(a as int, b as int),
            fp == if sdot == region.len() {
                Seq::<char>::empty()
            } else {
                region.subrange(sdot + 1, region.len() as int)
            },
            fp.len() == b - fstart,
            all_digits(fp.take(j - fstart)),
            taken == if j - fstart <= 6 {
                j - fstart
            } else {
                6int
            },
            frac as int == digits_val(fp.take(taken as int)),
            frac < 1_000_000,
        decreases b - j,
    {
        let c = s.get_char(j);
        proof {
            assert(fp[j - fstart] == region[j - a]);
            assert(region[j - a] == s@[j as int]);
        }
        if !(c >= '0' && c <= '9') {
            proof {
                assert(!is_digit(fp[j - fstart]));
                assert(!all_digits(fp));
                assert(spec_parse_seconds_us(region) is None);
            }
            return None;
        }
        proof {
            assert(fp.take(j - fstart + 1).drop_last() =~= fp.take(j - fstart));
            assert(fp.take(j - fstart + 1).last() == fp[j - fstart]);
        }
        if taken < 6 {
            proof {
                assert(fp.take(taken as int + 1).drop_last() =~= fp.take(taken as int));
                assert(fp.take(taken as int + 1).last() == fp[taken as int]);
                assert(fp[taken as int] == fp[j - fstart]);
                assert(all_digits(fp.take(taken as int + 1)));
                lemma_digits_val_bound(fp.take(taken as int + 1));
                lemma_ten_pow_mono((taken + 1) as nat, 6);
                lemma_ten_pow_6();
            }
            frac = frac * 10 + ((c as u32) - 48) as u64;
            taken = taken + 1;
        }
        j = j + 1;
    }
    let ghost k = if fp.len() <= 6 {
        fp.len() as int
    } else {
        6
    };
    proof {
        assert(fp.take(fp.len() as int) =~= fp);
        assert(all_digits(fp));
        assert(taken as int == k);
    }
    let scale: u64 = match 6 - taken {
        0 => 1,
        1 => 10,
        2 => 100,
        3 => 1_000,
        4 => 10_000,
        5 => 100_000,
        _ => 1_000_000,
    };
    proof {
        lemma_ten_pow_le6((6 - k) as nat);
        assert(scale as int == ten_pow((6 - k) as nat));
        assert(digits_val(fp.take(k)) * ten_pow((6 - k) as nat) < 1_000_000) by {
            lemma_digits_val_bound(fp.take(k));
            lemma_frac_scaled(digits_val(fp.take(k)), k);
        }
        assert(region.subrange(0, dot - a).len() >= 1);
    }
    Some((whole * 1_000_000 + frac * scale) as i64)
}

/// One more digit multiplies the bound by ten.
proof fn lemma_ten_pow_step(n: nat)
    ensures
        ten_pow(n + 1) == 10 * ten_pow(n),
{
}

/// Powers of ten grow with the exponent.
proof fn lemma_ten_pow_mono(a: nat, b: nat)
    requires
        a <= b,
    ensures
        ten_pow(a) <= ten_pow(b),
        ten_pow(a) >= 1,
    decreases b,
{
    if a < b {
        lemma_ten_pow_mono(a, (b - 1) as nat);
    } else if b > 0 {
        lemma_ten_pow_mono((a - 1) as nat, (b - 1) as nat);
    }
}

proof fn lemma_ten_pow_12()
    ensures
        ten_pow(12) == 1_000_000_000_000,
{
    reveal_with_fuel(ten_pow, 13);
}

proof fn lemma_ten_pow_6()
    ensures
        ten_pow(6) == 1_000_000,
{
    reveal_with_fuel(ten_pow, 7);
}

/// The small power table used for the fractional scale.
proof fn lemma_ten_pow_le6(n: nat)
    requires
        n <= 6,
    ensures
        ten_pow(n) == if n == 0 {
            1int
        } else if n == 1 {
            10
        } else if n == 2 {
            100
        } else if n == 3 {
            1000
        } else if n == 4 {
            10000
        } else if n == 5 {
            100000
        } else {
            1000000
        },
{
    reveal_with_fuel(ten_pow, 7);
}

/// A fraction of `k` digits scaled to microseconds stays below one second.
proof fn lemma_frac_scaled(v: int, k: int)
    requires
        0 <= k <= 6,
        0 <= v < ten_pow(k as nat),
    ensures
        v * ten_pow((6 - k) as nat) < 1_000_000,
{
    lemma_ten_pow_6();
    lemma_ten_pow_mono((6 - k) as nat, 6);
    assert(ten_pow(k as nat) * ten_pow((6 - k) as nat) == ten_pow(6)) by {
        lemma_ten_pow_mul(k as nat, (6 - k) as nat);
    }
    assert(v * ten_pow((6 - k) as nat) <= (ten_pow(k as nat) - 1) * ten_pow((6 - k) as nat))
        by (nonlinear_arith)
        requires
            0 <= v < ten_pow(k as nat),
            ten_pow((6 - k) as nat) >= 1,
    ;
    assert((ten_pow(k as nat) - 1) * ten_pow((6 - k) as nat) == ten_pow(k as nat) * ten_pow(
        (6 - k) as nat,
    ) - ten_pow((6 - k) as nat)) by (nonlinear_arith);
    lemma_ten_pow_mono((6 - k) as nat, 6);
}

/// Powers of ten multiply by adding exponents.
proof fn lemma_ten_pow_mul(a: nat, b: nat)
    ensures
        ten_pow(a) * ten_pow(b) == ten_pow(a + b),
    decreases a,
{
    if a > 0 {
        lemma_ten_pow_mul((a - 1) as nat, b);
        assert(ten_pow(a) * ten_pow(b) == 10 * (ten_pow((a - 1) as nat) * ten_pow(b)))
            by (nonlinear_arith)
            requires
                ten_pow(a) == 10 * ten_pow((a - 1) as nat),
        ;
    }
}

// ------------------------------------------------------------------ markers

/// Elapsed time carried by a line, in microseconds: the bracketed number
/// after the first `"[elapsed "`, spaces and trailing `'s'` markers
/// stripped; zero when the bracket is absent or the number does not parse.
pub open spec fn spec_elapsed_us(s: Seq<char>) -> i64 {
    let e = find_from(s, ELAPSED_MARK@, 0);
    if e == -1 {
        0
    } else {
        let num_start = e + ELAPSED_MARK@.len();
        let close = find_char_or_end(s, ']', num_start as int);
        let a1 = trim_start_in(s, num_start as int, close);
        let b1 = trim_end_in(s, a1, close);
        let b2 = strip_s_end_in(s, a1, b1);
        let b3 = trim_end_in(s, a1, b2);
        match spec_parse_seconds_us(s.subrange(a1, b3)) {
            Some(v) => v,
            None => 0,
        }
    }
}

/// What one line of the notes file contributes: an annotation exactly when
/// the line contains `"#marker "`; its tag is the trimmed text between that
/// mark and the next `'#'` (or the end), defaulting to `"marker"`; text
/// equals tag; the time comes from the elapsed bracket; never a range.
pub open spec fn spec_parse_annotation_line(s: Seq<char>) -> Option<AnnotationV> {
    let m = find_from(s, MARKER_MARK@, 0);
    if m == -1 {
        None
    } else {
        let tag_start = m + MARKER_MARK@.len();
        let tag_end = find_char_or_end(s, '#', tag_start as int);
        let ta = trim_start_in(s, tag_start as int, tag_end);
        let tb = trim_end_in(s, ta, tag_end);
        let tag = if ta >= tb {
            "marker"@
        } else {
            s.subrange(ta, tb)
        };
        Some(
            AnnotationV { time_offset_us: spec_elapsed_us(s), time_end_us: None, text: tag, tag },
        )
    }
}

/// `pat` occurs in `s` at position `i` (runtime check).
pub(crate) fn match_at(s: &str, n: usize, pat: &str, m: usize, i: usize) -> (r: bool)
    requires
        n == s@.len(),
        m == pat@.len(),
        i + m <= n,
    ensures
        r == occurs_at(s@, pat@, i as int),
{
    let mut j: usize = 0;
    while j < m
        invariant
            j <= m,
            n == s@.len(),
            m == pat@.len(),
            i + m <= n,
            forall|k: int| 0 <= k < j ==> s@[i + k] == pat@[k],
        decreases m - j,
    {
        if s.get_char(i + j) != pat.get_char(j) {
            proof {
                assert(s@.subrange(i as int, i as int + m)[j as int] == s@[i + j]);
            }
            return false;
        }
        j = j + 1;
    }
    proof {
        assert(s@.subrange(i as int, i as int + m) =~= pat@);
    }
    true
}

/// First occurrence of `pat` at or after `from` (runtime search).
pub(crate) fn find_pat_from(s: &str, n: usize, pat: &str, m: usize, from: usize) -> (r: Option<
    usize,
>)
    requires
        n == s@.len(),
        m == pat@.len(),
        m >= 1,
        from <= n,
    ensures
        match r {
            Some(i) => from <= i && i as int == find_from(s@, pat@, from as int),
            None => find_from(s@, pat@, from as int) == -1,
        },
{
    if m > n {
        return None;
    }
    let mut i = from;
    while i <= n - m
        invariant
            from <= i,
            i <= n + 1,
            m <= n,
            n == s@.len(),
            m == pat@.len(),
            m >= 1,
            find_from(s@, pat@, from as int) == find_from(s@, pat@, i as int),
        decreases n - i,
    {
        if match_at(s, n, pat, m, i) {
            return Some(i);
        }
        i = i + 1;
    }
    None
}

/// First non-space position in `[a, b)` (runtime).
fn trim_start_exec(s: &str, a: usize, b: usize) -> (r: usize)
    requires
        a <= b <= s@.len(),
    ensures
        r as int == trim_start_in(s@, a as int, b as int),
        a <= r <= b,
{
    proof {
        lemma_trim_bounds(s@, a as int, b as int);
    }
    let mut i = a;
    while i < b
        invariant
            a <= i <= b <= s@.len(),
            trim_start_in(s@, a as int, b as int) == trim_start_in(s@, i as int, b as int),
        decreases b - i,
    {
        let c = s.get_char(i);
        if !(c == ' ' || c == '\t' || c == '\r') {
            return i;
        }
        i = i + 1;
    }
    b
}

/// One past the last non-space position in `[a, b)` (runtime).
fn trim_end_exec(s: &str, a: usize, b: usize) -> (r: usize)
    requires
        a <= b <= s@.len(),
    ensures
        r as int == trim_end_in(s@, a as int, b as int),
        a <= r <= b,
{
    proof {
        lemma_trim_bounds(s@, a as int, b as int);
    }
    let mut j = b;
    while j > a
        invariant
            a <= j <= b <= s@.len(),
            trim_end_in(s@, a as int, b as int) == trim_end_in(s@, a as int, j as int),
        decreases j,
    {
        let c = s.get_char(j - 1);
        if !(c == ' ' || c == '\t' || c == '\r') {
            return j;
        }
        j = j - 1;
    }
    a
}

/// One past the last character of `[a, b)` that is not a trailing `'s'`
/// (runtime).
fn strip_s_exec(s: &str, a: usize, b: usize) -> (r: usize)
    requires
        a <= b <= s@.len(),
    ensures
        r as int == strip_s_end_in(s@, a as int, b as int),
        a <= r <= b,
{
    proof {
        lemma_trim_bounds(s@, a as int, b as int);
    }
    let mut j = b;
    while j > a
        invariant
            a <= j <= b <= s@.len(),
            strip_s_end_in(s@, a as int, b as int) == strip_s_end_in(s@, a as int, j as int),
        decreases j,
    {
        if s.get_char(j - 1) != 's' {
            return j;
        }
        j = j - 1;
    }
    a
}

/// First position at or after `from` holding `c`, or the length (runtime).
fn find_char_abs(s: &str, n: usize, c: char, from: usize) -> (r: usize)
    requires
        n == s@.len(),
        from <= n,
    ensures
        r as int == find_char_or_end(s@, c, from as int),
        from <= r <= n,
{
    proof {
        lemma_find_char_bounds(s@, c, from as int);
    }
    let mut i = from;
    while i < n
        invariant
            from <= i <= n,
            n == s@.len(),
            find_char_or_end(s@, c, from as int) == find_char_or_end(s@, c, i as int),
        decreases n - i,
    {
        if s.get_char(i) == c {
            return i;
        }
        i = i + 1;
    }
    n
}

/// A found pattern leaves room for itself inside the string.
proof fn lemma_find_from_in_range(s: Seq<char>, pat: Seq<char>, i: int)
    ensures
        find_from(s, pat, i) != -1 ==> i <= find_from(s, pat, i) && find_from(s, pat, i)
            + pat.len() <= s.len(),
    decreases s.len() - i,
{
    if !(pat.len() <= 0 || i < 0 || i + pat.len() > s.len()) && !occurs_at(s, pat, i) {
        lemma_find_from_in_range(s, pat, i + 1);
    }
}

/// Parse one line of the notes file.
///
/// Returns an annotation exactly when the line contains `"#marker "`: the
/// tag is the trimmed text between that mark and the next `'#'`, defaulting
/// to `"marker"`; the text equals the tag; the time comes from the
/// `"[elapsed Ns]"` bracket, zero when absent or unparsable; the annotation
/// is a point, never a range.  Lines without the mark contribute nothing.
pub fn parse_annotation_line(line: &str) -> (r: Option<Annotation>)
    ensures
        match r {
            Some(a) => spec_parse_annotation_line(line@) == Some(a@),
            None => spec_parse_annotation_line(line@) is None,
        },
{
    proof {
        reveal_strlit("#marker ");
    }
    let n = line.unicode_len();
    let m = match find_pat_from(line, n, MARKER_MARK, 8, 0) {
        Some(i) => i,
        None => {
            return None;
        },
    };
    proof {
        lemma_find_from_in_range(line@, MARKER_MARK@, 0);
    }
    let tag_start = m + 8;
    let tag_end = find_char_abs(line, n, '#', tag_start);
    let ta = trim_start_exec(line, tag_start, tag_end);
    let tb = trim_end_exec(line, ta, tag_end);
    let tag = if ta >= tb {
        String::from_str("marker")
    } else {
        String::from_str(line.substring_char(ta, tb))
    };
    let text = tag.clone();
    let t = elapsed_us(line, n);
    Some(Annotation { time_offset_us: t, time_end_us: None, text, tag })
}

/// The elapsed time a line carries, in microseconds.
fn elapsed_us(line: &str, n: usize) -> (r: i64)
    requires
        n == line@.len(),
    ensures
        r == spec_elapsed_us(line@),
{
    proof {
        reveal_strlit("[elapsed ");
    }
    let e = match find_pat_from(line, n, ELAPSED_MARK, 9, 0) {
        Some(i) => i,
        None => {
            return 0;
        },
    };
    proof {
        lemma_find_from_in_range(line@, ELAPSED_MARK@, 0);
    }
    let num_start = e + 9;
    let close = find_char_abs(line, n, ']', num_start);
    let a1 = trim_start_exec(line, num_start, close);
    let b1 = trim_end_exec(line, a1, close);
    let b2 = strip_s_exec(line, a1, b1);
    let b3 = trim_end_exec(line, a1, b2);
    match parse_seconds_us(line, a1, b3) {
        Some(v) => v,
        None => 0,
    }
}

// ------------------------------------------------------------------ bundle

/// Annotations contributed by the lines of `s` from position `pos` on.
pub open spec fn spec_annotations_from(s: Seq<char>, pos: int) -> Seq<AnnotationV>
    decreases s.len() - pos
        when 0 <= pos
        via spec_annotations_from_dec
{
    if pos >= s.len() {
        Seq::empty()
    } else {
        let nl = find_char_or_end(s, '\n', pos);
        let head = match spec_parse_annotation_line(s.subrange(pos, nl)) {
            Some(a) => seq![a],
            None => Seq::<AnnotationV>::empty(),
        };
        head + if nl < s.len() {
            spec_annotations_from(s, nl + 1)
        } else {
            Seq::<AnnotationV>::empty()
        }
    }
}

#[via_fn]
proof fn spec_annotations_from_dec(s: Seq<char>, pos: int) {
    if 0 <= pos <= s.len() {
        lemma_find_char_bounds(s, '\n', pos);
    }
}

/// Collect the annotations of every line of the notes body, in line order.
pub fn collect_annotations(body: &str) -> (r: Vec<Annotation>)
    ensures
        views_of(r@) == spec_annotations_from(body@, 0),
{
    let n = body.unicode_len();
    let mut out: Vec<Annotation> = Vec::new();
    let mut pos: usize = 0;
    while pos < n
        invariant
            pos <= n,
            n == body@.len(),
            spec_annotations_from(body@, 0) =~= views_of(out@) + spec_annotations_from(
                body@,
                pos as int,
            ),
        decreases n - pos,
    {
        proof {
            lemma_find_char_bounds(body@, '\n', pos as int);
        }
        let nl = find_char_abs(body, n, '\n', pos);
        let line = body.substring_char(pos, nl);
        let ghost out0 = views_of(out@);
        match parse_annotation_line(line) {
            Some(a) => {
                out.push(a);
                proof {
                    assert(views_of(out@) =~= out0.push(a@));
                }
            },
            None => {},
        }
        let next = if nl < n {
            nl + 1
        } else {
            n
        };
        proof {
            assert(spec_annotations_from(body@, 0) =~= views_of(out@) + spec_annotations_from(
                body@,
                next as int,
            ));
        }
        pos = next;
    }
    proof {
        assert(spec_annotations_from(body@, pos as int) =~= Seq::<AnnotationV>::empty());
        assert(views_of(out@) =~= spec_annotations_from(body@, 0));
    }
    out
}

/// The note bundle written at capture stop: the run's time window, the
/// prose body, the named short fields, and the annotations parsed from the
/// body's marker lines.
#[derive(Clone, Debug)]
pub struct RecordingNotesJson {
    pub recording_start_utc: String,
    pub recording_end_utc: String,
    pub notes: String,
    pub fields: RecordingNotesContent,
    pub annotations: Vec<Annotation>,
}

/// Assemble the note bundle from the scratch files' contents.
///
/// The shell reads the files (capped at [`NOTES_MAX_BYTES`] each), hands the
/// texts in, serializes the bundle and deletes the scratch files.
pub fn build_note_bundle(
    notes_body: &str,
    recording_start_utc: &String,
    recording_end_utc: &String,
    fields: RecordingNotesContent,
) -> (r: RecordingNotesJson)
    ensures
        r.recording_start_utc@ == recording_start_utc@,
        r.recording_end_utc@ == recording_end_utc@,
        r.notes@ == notes_body@,
        r.fields == fields,
        views_of(r.annotations@) == spec_annotations_from(notes_body@, 0),
{
    let annotations = collect_annotations(notes_body);
    RecordingNotesJson {
        recording_start_utc: recording_start_utc.clone(),
        recording_end_utc: recording_end_utc.clone(),
        notes: String::from_str(notes_body),
        fields,
        annotations,
    }
}

/// The named short fields, in their scratch-file and column order.
pub fn recording_notes_fields() -> (r: Vec<&'static str>)
    ensures
        r@.len() == 8,
        r@[0]@ == "laptime"@,
        r@[1]@ == "result"@,
        r@[2]@ == "driver_impression"@,
        r@[3]@ == "tested_parameters"@,
        r@[4]@ == "conditions"@,
        r@[5]@ == "setup_notes"@,
        r@[6]@ == "session_goal"@,
        r@[7]@ == "incident"@,
{
    let mut v: Vec<&'static str> = Vec::new();
    v.push("laptime");
    v.push("result");
    v.push("driver_impression");
    v.push("tested_parameters");
    v.push("conditions");
    v.push("setup_notes");
    v.push("session_goal");
    v.push("incident");
    v
}

} // verus!
