use vstd::prelude::*;
use vstd::string::StrSliceExecFns;

verus! {

/// `needle` occurs contiguously somewhere in `haystack`.
pub open spec fn spec_contains(haystack: Seq<char>, needle: Seq<char>) -> bool {
    exists|i: int|
        0 <= i && i + needle.len() <= haystack.len() && #[trigger] haystack.subrange(
            i,
            i + needle.len(),
        ) == needle
}

/// `needle` matches `haystack` at offset `i`.
fn matches_at(haystack: &str, needle: &str, i: usize, hl: usize, nl: usize) -> (r: bool)
    requires
        hl == haystack@.len(),
        nl == needle@.len(),
        i + nl <= hl,
    ensures
        r == (haystack@.subrange(i as int, i + nl) == needle@),
{
    let mut k: usize = 0;
    while k < nl
        invariant
            hl == haystack@.len(),
            nl == needle@.len(),
            i + nl <= hl,
            k <= nl,
            forall|j: int| 0 <= j < k ==> haystack@[i + j] == needle@[j],
        decreases nl - k,
    {
        if haystack.get_char(i + k) != needle.get_char(k) {
            proof {
                assert(haystack@.subrange(i as int, i + nl)[k as int] != needle@[k as int]);
            }
            return false;
        }
        k = k + 1;
    }
    proof {
        assert(haystack@.subrange(i as int, i + nl) =~= needle@);
    }
    true
}

/// Substring search, the library's own statement of `contains`.
pub fn contains_substring(haystack: &str, needle: &str) -> (r: bool)
    ensures
        r == spec_contains(haystack@, needle@),
{
    let hl = haystack.unicode_len();
    let nl = needle.unicode_len();
    if nl > hl {
        return false;
    }
    if nl == 0 {
        proof {
            assert(haystack@.subrange(0, 0 + needle@.len() as int) =~= needle@);
        }
        return true;
    }
    let bound = hl - nl;
    let mut i: usize = 0;
    while i <= bound
        invariant
            0 < nl <= hl,
            bound == hl - nl,
            hl == haystack@.len(),
            nl == needle@.len(),
            i <= bound + 1,
            forall|j: int|
                0 <= j < i ==> #[trigger] haystack@.subrange(j, j + nl as int) != needle@,
        decreases bound + 1 - i,
    {
        if matches_at(haystack, needle, i, hl, nl) {
            return true;
        }
        i = i + 1;
    }
    false
}

/// A decimal digit.
pub open spec fn is_digit(c: char) -> bool {
    48 <= c as u32 <= 57
}

/// The numeric value of a digit sequence, most significant digit first.
pub open spec fn spec_decimal_value(s: Seq<char>) -> int
    decreases s.len(),
{
    if s.len() == 0 {
        0
    } else {
        spec_decimal_value(s.drop_last()) * 10 + (s.last() as u32 - 48)
    }
}

/// What `parse_u8_decimal` returns: the value of a non-empty all-digit
/// string that fits in a byte, and nothing otherwise.
pub open spec fn spec_parse_u8(s: Seq<char>) -> Option<u8> {
    if s.len() > 0 && (forall|i: int| 0 <= i < s.len() ==> is_digit(#[trigger] s[i]))
        && spec_decimal_value(s) <= 255 {
        Some(spec_decimal_value(s) as u8)
    } else {
        None
    }
}

/// A digit string's value is at least its prefix's value.
proof fn lemma_prefix_value_le(s: Seq<char>, k: int)
    requires
        0 <= k <= s.len(),
        forall|i: int| 0 <= i < s.len() ==> is_digit(#[trigger] s[i]),
    ensures
        spec_decimal_value(s.take(k)) <= spec_decimal_value(s),
        spec_decimal_value(s.take(k)) >= 0,
    decreases s.len() - k,
{
    if k == s.len() {
        assert(s.take(k) =~= s);
        lemma_value_nonneg(s);
    } else {
        lemma_prefix_value_le(s, k + 1);
        assert(s.take(k + 1).drop_last() =~= s.take(k));
        assert(spec_decimal_value(s.take(k + 1)) == spec_decimal_value(s.take(k)) * 10 + (s[k] as u32
            - 48));
        lemma_value_nonneg(s.take(k));
    }
}

/// A digit string's value is non-negative.
proof fn lemma_value_nonneg(s: Seq<char>)
    requires
        forall|i: int| 0 <= i < s.len() ==> is_digit(#[trigger] s[i]),
    ensures
        spec_decimal_value(s) >= 0,
    decreases s.len(),
{
    if s.len() > 0 {
        lemma_value_nonneg(s.drop_last());
    }
}

/// Parses a non-empty, all-digit decimal string into a byte; anything
/// else (empty, a non-digit, a value over 255) yields nothing.
pub fn parse_u8_decimal(s: &str) -> (r: Option<u8>)
    ensures
        r == spec_parse_u8(s@),
{
    let n = s.unicode_len();
    if n == 0 {
        return None;
    }
    let mut acc: u32 = 0;
    let mut i: usize = 0;
    while i < n
        invariant
            n == s@.len(),
            i <= n,
            forall|j: int| 0 <= j < i ==> is_digit(#[trigger] s@[j]),
            acc == spec_decimal_value(s@.take(i as int)),
            acc <= 255,
        decreases n - i,
    {
        let c = s.get_char(i);
        let cv = c as u32;
        if cv < 48 || cv > 57 {
            return None;
        }
        let v = acc * 10 + (cv - 48);
        proof {
            assert(s@.take(i + 1).drop_last() =~= s@.take(i as int));
            assert(s@.take(i + 1).last() == s@[i as int]);
        }
        if v > 255 {
            proof {
                if forall|q: int| 0 <= q < s@.len() ==> is_digit(#[trigger] s@[q]) {
                    lemma_prefix_value_le(s@, i + 1);
                }
            }
            return None;
        }
        acc = v;
        i = i + 1;
    }
    proof {
        assert(s@.take(n as int) =~= s@);
    }
    Some(acc as u8)
}

/// The text after the last `';'` of `s` (all of `s` when it has none).
pub open spec fn spec_bg_segment(s: Seq<char>) -> Seq<char>
    decreases s.len(),
{
    if s.len() == 0 {
        s
    } else if s.last() == ';' {
        Seq::empty()
    } else {
        spec_bg_segment(s.drop_last()) + seq![s.last()]
    }
}

/// `spec_bg_segment` is the suffix that starts right after the last `';'`.
proof fn lemma_bg_segment(s: Seq<char>, j: int)
    requires
        0 <= j <= s.len(),
        forall|i: int| j <= i < s.len() ==> s[i] != ';',
        j > 0 ==> s[j - 1] == ';',
    ensures
        spec_bg_segment(s) == s.subrange(j, s.len() as int),
    decreases s.len(),
{
    if s.len() == 0 {
        assert(spec_bg_segment(s) =~= s.subrange(j, s.len() as int));
    } else if s.last() == ';' {
        assert(j == s.len());
        assert(spec_bg_segment(s) =~= s.subrange(j, s.len() as int));
    } else {
        lemma_bg_segment(s.drop_last(), j);
        assert(s.drop_last().subrange(j, s.len() - 1) + seq![s.last()] =~= s.subrange(
            j,
            s.len() as int,
        ));
    }
}

/// What `classify_colorfgbg` returns: the byte after the last `';'`,
/// below 8 meaning a dark background; nothing when it does not parse.
pub open spec fn spec_classify_colorfgbg(s: Seq<char>) -> Option<bool> {
    match spec_parse_u8(spec_bg_segment(s)) {
        Some(v) => Some(v < 8),
        None => None,
    }
}

/// Signal from a color-pair hint of the form "foreground;background":
/// a background channel value below 8 is treated as dark, 8 or above as
/// light; a value that does not parse gives no signal.
pub fn classify_colorfgbg(hint: &str) -> (r: Option<bool>)
    ensures
        r == spec_classify_colorfgbg(hint@),
{
    let n = hint.unicode_len();
    let mut j: usize = 0;
    let mut i: usize = 0;
    while i < n
        invariant
            n == hint@.len(),
            i <= n,
            j <= i,
            j > 0 ==> hint@[j - 1] == ';',
            forall|q: int| j <= q < i ==> hint@[q] != ';',
        decreases n - i,
    {
        if hint.get_char(i) == ';' {
            j = i + 1;
        }
        i = i + 1;
    }
    proof {
        lemma_bg_segment(hint@, j as int);
    }
    let seg = hint.substring_char(j, n);
    match parse_u8_decimal(seg) {
        Some(v) => Some(v < 8),
        None => None,
    }
}

/// Signal from a terminal-family hint: a value containing "light" is taken
/// to mean a light background; anything else gives no signal.
pub fn classify_term_program(hint: &str) -> (r: Option<bool>)
    ensures
        spec_contains(hint@, "light"@) ==> r == Some(false),
        !spec_contains(hint@, "light"@) ==> r is None,
{
    if contains_substring(hint, "light") {
        Some(false)
    } else {
        None
    }
}

/// What the fallback chain decides: a terminal-family hint containing
/// "light" wins first; then a color-pair hint that parses; failing both,
/// dark is assumed.
pub open spec fn spec_background_from_hints(
    term_program: Option<Seq<char>>,
    colorfgbg: Option<Seq<char>>,
) -> bool {
    if term_program matches Some(t) && spec_contains(t, "light"@) {
        false
    } else {
        match colorfgbg {
            Some(c) => match spec_classify_colorfgbg(c) {
                Some(dark) => dark,
                None => true,
            },
            None => true,
        }
    }
}

/// The ordered chain of background probes over the environment hints the
/// driver gathered, defaulting to a dark background when no probe yields
/// a signal.
pub fn background_from_hints(term_program: Option<&str>, colorfgbg: Option<&str>) -> (dark: bool)
    ensures
        dark == spec_background_from_hints(
            match term_program {
                Some(t) => Some(t@),
                None => None,
            },
            match colorfgbg {
                Some(c) => Some(c@),
                None => None,
            },
        ),
{
    match term_program {
        Some(t) => {
            match classify_term_program(t) {
                Some(dark) => {
                    return dark;
                },
                None => {},
            }
        },
        None => {},
    }
    match colorfgbg {
        Some(c) => {
            match classify_colorfgbg(c) {
                Some(dark) => dark,
                None => true,
            }
        },
        None => true,
    }
}

} // verus!
