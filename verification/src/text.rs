//! Cell text handling: the cell normaliser, best-effort numeric parsing with
//! default-on-failure semantics, and the fixed-point [`Decimal`] type that
//! carries fractional statistics.

use vstd::prelude::*;

verus! {

// ---------------------------------------------------------------------------
// Character classes
// ---------------------------------------------------------------------------

/// The whitespace characters the normaliser trims at cell boundaries: the
/// Unicode white-space code points, as `char::is_whitespace` classifies
/// them (cell text can carry non-breaking spaces and similar characters).
pub open spec fn is_space_char(c: char) -> bool {
    let v = c as u32;
    v == 0x20 || (0x09 <= v && v <= 0x0D) || v == 0x85 || v == 0xA0 || v == 0x1680 || (0x2000
        <= v && v <= 0x200A) || v == 0x2028 || v == 0x2029 || v == 0x202F || v == 0x3000
        || v == 0x205F
}

pub open spec fn is_digit_char(c: char) -> bool {
    48 <= (c as u32) && (c as u32) <= 57
}

pub open spec fn digit_val(c: char) -> int {
    (c as u32) - 48
}

/// Exec mirror of [`is_space_char`].
pub fn is_space(c: char) -> (r: bool)
    ensures
        r == is_space_char(c),
{
    let v = c as u32;
    v == 0x20 || (0x09 <= v && v <= 0x0D) || v == 0x85 || v == 0xA0 || v == 0x1680 || (0x2000
        <= v && v <= 0x200A) || v == 0x2028 || v == 0x2029 || v == 0x202F || v == 0x3000
        || v == 0x205F
}

/// Exec mirror of [`is_digit_char`].
pub fn is_digit(c: char) -> (r: bool)
    ensures
        r == is_digit_char(c),
{
    let v = c as u32;
    48 <= v && v <= 57
}

// ---------------------------------------------------------------------------
// The cell normaliser, specified in three stages: trim the ends, drop
// newlines, then collapse space pairs in a single left-to-right pass.
// ---------------------------------------------------------------------------

pub open spec fn trim_start_spec(s: Seq<char>) -> Seq<char>
    decreases s.len(),
{
    if s.len() > 0 && is_space_char(s[0]) {
        trim_start_spec(s.skip(1))
    } else {
        s
    }
}

pub open spec fn trim_end_spec(s: Seq<char>) -> Seq<char>
    decreases s.len(),
{
    if s.len() > 0 && is_space_char(s.last()) {
        trim_end_spec(s.drop_last())
    } else {
        s
    }
}

pub open spec fn trim_spec(s: Seq<char>) -> Seq<char> {
    trim_end_spec(trim_start_spec(s))
}

pub open spec fn strip_newlines_spec(s: Seq<char>) -> Seq<char>
    decreases s.len(),
{
    if s.len() == 0 {
        s
    } else if s[0] == '\n' {
        strip_newlines_spec(s.skip(1))
    } else {
        seq![s[0]] + strip_newlines_spec(s.skip(1))
    }
}

/// One left-to-right pass that rewrites each non-overlapping pair of spaces
/// to a single space.
pub open spec fn collapse_spaces_spec(s: Seq<char>) -> Seq<char>
    decreases s.len(),
{
    if s.len() >= 2 && s[0] == ' ' && s[1] == ' ' {
        seq![' '] + collapse_spaces_spec(s.skip(2))
    } else if s.len() >= 1 {
        seq![s[0]] + collapse_spaces_spec(s.skip(1))
    } else {
        s
    }
}

/// What the cell normaliser produces: the trimmed text with newlines removed
/// and space pairs collapsed.
pub open spec fn normalize_spec(s: Seq<char>) -> Seq<char> {
    collapse_spaces_spec(strip_newlines_spec(trim_spec(s)))
}

proof fn lemma_trim_start_at(s: Seq<char>, k: int)
    requires
        0 <= k <= s.len(),
        forall|j: int| 0 <= j < k ==> is_space_char(s[j]),
        k < s.len() ==> !is_space_char(s[k]),
    ensures
        trim_start_spec(s) == s.skip(k),
    decreases k,
{
    if k == 0 {
        assert(s.skip(0) =~= s);
    } else {
        lemma_trim_start_at(s.skip(1), k - 1);
        assert(s.skip(1).skip(k - 1) =~= s.skip(k));
    }
}

proof fn lemma_trim_end_at(s: Seq<char>, k: int)
    requires
        0 <= k <= s.len(),
        forall|j: int| k <= j < s.len() ==> is_space_char(s[j]),
        k > 0 ==> !is_space_char(s[k - 1]),
    ensures
        trim_end_spec(s) == s.take(k),
    decreases s.len(),
{
    if k == s.len() {
        assert(s.take(k) =~= s);
    } else {
        assert(is_space_char(s.last()));
        assert(forall|j: int| k <= j < s.len() - 1 ==> s.drop_last()[j] == s[j]);
        lemma_trim_end_at(s.drop_last(), k);
        assert(s.drop_last().take(k) =~= s.take(k));
    }
}

// ---------------------------------------------------------------------------
// Exec normaliser
// ---------------------------------------------------------------------------

/// Relies on `String::push`: appends one character to the end of the string.
pub assume_specification[ String::push ](s: &mut String, ch: char)
    ensures
        final(s)@ == old(s)@.push(ch),
;

/// The Cell Normalizer: trims the cell, removes internal newlines, and
/// collapses space pairs to single spaces. Pure and total; applied to every
/// cell before any parsing.
pub fn normalize_cell(s: &str) -> (r: String)
    ensures
        r@ == normalize_spec(s@),
{
    let n = s.unicode_len();
    let mut start: usize = 0;
    while start < n && is_space(s.get_char(start))
        invariant
            n == s@.len(),
            0 <= start <= n,
            forall|j: int| 0 <= j < start ==> is_space_char(s@[j]),
        decreases n - start,
    {
        start += 1;
    }
    let mut end: usize = n;
    while end > start && is_space(s.get_char(end - 1))
        invariant
            n == s@.len(),
            start <= end <= n,
            forall|j: int| end <= j < n ==> is_space_char(s@[j]),
        decreases end,
    {
        end -= 1;
    }
    proof {
        lemma_trim_start_at(s@, start as int);
        if end == start {
            lemma_trim_end_at(s@.skip(start as int), 0);
        } else {
            lemma_trim_end_at(s@.skip(start as int), end - start);
        }
        assert(s@.skip(start as int).take(end - start) =~= s@.subrange(
            start as int,
            end as int,
        ));
        assert(trim_spec(s@) == s@.subrange(start as int, end as int));
    }
    // stage 2: drop newlines from the trimmed range
    let mut t = String::new();
    let mut i = start;
    while i < end
        invariant
            n == s@.len(),
            start <= i <= end <= n,
            strip_newlines_spec(s@.subrange(start as int, end as int)) == t@
                + strip_newlines_spec(s@.subrange(i as int, end as int)),
        decreases end - i,
    {
        let c = s.get_char(i);
        proof {
            assert(s@.subrange(i as int, end as int)[0] == c);
            assert(s@.subrange(i as int, end as int).skip(1) =~= s@.subrange(
                i as int + 1,
                end as int,
            ));
        }
        if c != '\n' {
            proof {
                assert(strip_newlines_spec(s@.subrange(i as int, end as int)) == seq![c]
                    + strip_newlines_spec(s@.subrange(i as int + 1, end as int)));
            }
            let ghost t_prev = t@;
            t.push(c);
            proof {
                assert(t@ =~= t_prev + seq![c]);
                assert(t_prev + (seq![c] + strip_newlines_spec(
                    s@.subrange(i as int + 1, end as int),
                )) =~= t@ + strip_newlines_spec(s@.subrange(i as int + 1, end as int)));
            }
        }
        i += 1;
    }
    proof {
        assert(s@.subrange(end as int, end as int) =~= Seq::<char>::empty());
        assert(t@ == strip_newlines_spec(trim_spec(s@)));
    }
    // stage 3: collapse space pairs
    let m = t.unicode_len();
    let mut r = String::new();
    let mut k: usize = 0;
    proof {
        assert(t@.skip(0) =~= t@);
    }
    while k < m
        invariant
            m == t@.len(),
            0 <= k <= m,
            collapse_spaces_spec(t@) == r@ + collapse_spaces_spec(t@.skip(k as int)),
        decreases m - k,
    {
        let rest_len = m - k;
        proof {
            assert(t@.skip(k as int).len() == rest_len);
            assert(t@.skip(k as int)[0] == t@[k as int]);
            if rest_len >= 2 {
                assert(t@.skip(k as int)[1] == t@[k + 1]);
            }
        }
        if rest_len >= 2 && t.get_char(k) == ' ' && t.get_char(k + 1) == ' ' {
            proof {
                assert(t@.skip(k as int).skip(2) =~= t@.skip(k as int + 2));
                assert(collapse_spaces_spec(t@.skip(k as int)) == seq![' ']
                    + collapse_spaces_spec(t@.skip(k as int + 2)));
            }
            let ghost r_prev = r@;
            r.push(' ');
            proof {
                assert(r@ =~= r_prev + seq![' ']);
                assert(r_prev + (seq![' '] + collapse_spaces_spec(t@.skip(k as int + 2))) =~= r@
                    + collapse_spaces_spec(t@.skip(k as int + 2)));
            }
            k += 2;
        } else {
            let c = t.get_char(k);
            proof {
                assert(t@.skip(k as int).skip(1) =~= t@.skip(k as int + 1));
                assert(collapse_spaces_spec(t@.skip(k as int)) == seq![c]
                    + collapse_spaces_spec(t@.skip(k as int + 1)));
            }
            let ghost r_prev = r@;
            r.push(c);
            proof {
                assert(r@ =~= r_prev + seq![c]);
                assert(r_prev + (seq![c] + collapse_spaces_spec(t@.skip(k as int + 1))) =~= r@
                    + collapse_spaces_spec(t@.skip(k as int + 1)));
            }
            k += 1;
        }
    }
    proof {
        assert(t@.skip(m as int) =~= Seq::<char>::empty());
        assert(r@ == collapse_spaces_spec(t@));
    }
    r
}

/// Trims whitespace from both ends of a string.
pub fn trim_str(s: &str) -> (r: String)
    ensures
        r@ == trim_spec(s@),
{
    let n = s.unicode_len();
    let mut start: usize = 0;
    while start < n && is_space(s.get_char(start))
        invariant
            n == s@.len(),
            0 <= start <= n,
            forall|j: int| 0 <= j < start ==> is_space_char(s@[j]),
        decreases n - start,
    {
        start += 1;
    }
    let mut end: usize = n;
    while end > start && is_space(s.get_char(end - 1))
        invariant
            n == s@.len(),
            start <= end <= n,
            forall|j: int| end <= j < n ==> is_space_char(s@[j]),
        decreases end,
    {
        end -= 1;
    }
    proof {
        lemma_trim_start_at(s@, start as int);
        if end == start {
            lemma_trim_end_at(s@.skip(start as int), 0);
        } else {
            lemma_trim_end_at(s@.skip(start as int), end - start);
        }
        assert(s@.skip(start as int).take(end - start) =~= s@.subrange(
            start as int,
            end as int,
        ));
    }
    let sub = s.substring_char(start, end);
    String::from_str(sub)
}

/// Compares two strings by contents.
pub fn str_eq(a: &str, b: &str) -> (r: bool)
    ensures
        r == (a@ == b@),
{
    let na = a.unicode_len();
    let nb = b.unicode_len();
    if na != nb {
        return false;
    }
    let mut i: usize = 0;
    while i < na
        invariant
            na == a@.len(),
            na == b@.len(),
            0 <= i <= na,
            forall|j: int| 0 <= j < i ==> a@[j] == b@[j],
        decreases na - i,
    {
        if a.get_char(i) != b.get_char(i) {
            return false;
        }
        i += 1;
    }
    proof {
        assert(a@ =~= b@);
    }
    true
}

// ---------------------------------------------------------------------------
// Digit strings
// ---------------------------------------------------------------------------

pub open spec fn all_digits(s: Seq<char>) -> bool {
    forall|i: int| 0 <= i < s.len() ==> is_digit_char(#[trigger] s[i])
}

pub open spec fn digits_val(s: Seq<char>) -> int
    decreases s.len(),
{
    if s.len() == 0 {
        0
    } else {
        digits_val(s.drop_last()) * 10 + digit_val(s.last())
    }
}

proof fn lemma_digits_val_nonneg(s: Seq<char>)
    requires
        all_digits(s),
    ensures
        digits_val(s) >= 0,
    decreases s.len(),
{
    if s.len() > 0 {
        assert(all_digits(s.drop_last())) by {
            assert(forall|i: int| 0 <= i < s.len() - 1 ==> s.drop_last()[i] == s[i]);
        }
        lemma_digits_val_nonneg(s.drop_last());
    }
}

proof fn lemma_digits_val_monotone(s: Seq<char>, k: int)
    requires
        all_digits(s),
        0 <= k <= s.len(),
    ensures
        digits_val(s) >= digits_val(s.take(k)),
    decreases s.len() - k,
{
    if k < s.len() {
        lemma_digits_val_monotone(s, k + 1);
        assert(s.take(k + 1).drop_last() =~= s.take(k));
        assert(s.take(k + 1).last() == s[k]);
        assert(all_digits(s.take(k))) by {
            assert(forall|i: int| 0 <= i < k ==> s.take(k)[i] == s[i]);
        }
        lemma_digits_val_nonneg(s.take(k));
        assert(digits_val(s.take(k + 1)) == digits_val(s.take(k)) * 10 + digit_val(s[k]));
    } else {
        assert(s.take(k) =~= s);
    }
}

/// The value of a run of digit characters, or `None` if the run is empty,
/// holds a non-digit, or exceeds `u32::MAX`.
pub open spec fn try_digits(s: Seq<char>) -> Option<u32> {
    if s.len() > 0 && all_digits(s) && digits_val(s) <= u32::MAX {
        Some(digits_val(s) as u32)
    } else {
        None
    }
}

/// Parses the digit run `s[from..to]`.
fn parse_digits_range(s: &str, from: usize, to: usize) -> (r: Option<u32>)
    requires
        from <= to <= s@.len(),
    ensures
        r == try_digits(s@.subrange(from as int, to as int)),
{
    let ghost seg = s@.subrange(from as int, to as int);
    if from == to {
        return None;
    }
    let mut acc: u64 = 0;
    let mut i = from;
    while i < to
        invariant
            from <= i <= to <= s@.len(),
            seg == s@.subrange(from as int, to as int),
            all_digits(seg.take(i - from)),
            acc <= u32::MAX as u64,
            acc as int == digits_val(seg.take(i - from)),
        decreases to - i,
    {
        let c = s.get_char(i);
        proof {
            assert(seg[i - from] == s@[i as int]);
        }
        if !is_digit(c) {
            proof {
                assert(!is_digit_char(seg[i - from]));
            }
            return None;
        }
        let d = ((c as u32) - 48) as u64;
        let next = acc * 10 + d;
        proof {
            assert(seg.take(i - from + 1).drop_last() =~= seg.take(i - from));
            assert(seg.take(i - from + 1).last() == seg[i - from]);
            assert(digits_val(seg.take(i - from + 1)) == digits_val(seg.take(i - from)) * 10
                + digit_val(seg[i - from]));
            assert(all_digits(seg.take(i - from + 1))) by {
                assert(forall|j: int| 0 <= j < i - from + 1 ==> seg.take(i - from + 1)[j] == seg[j]);
            }
        }
        if next > u32::MAX as u64 {
            proof {
                if all_digits(seg) && digits_val(seg) <= u32::MAX {
                    lemma_digits_val_monotone(seg, i - from + 1);
                    assert(false);
                }
            }
            return None;
        }
        acc = next;
        i += 1;
    }
    proof {
        assert(seg.take(to - from) =~= seg);
        lemma_digits_val_nonneg(seg);
    }
    Some(acc as u32)
}

/// The leading `+` that an integer literal may carry, removed.
pub open spec fn u32_body(s: Seq<char>) -> Seq<char> {
    if s.len() > 0 && s[0] == '+' {
        s.skip(1)
    } else {
        s
    }
}

pub open spec fn try_parse_u32_spec(s: Seq<char>) -> Option<u32> {
    try_digits(u32_body(s))
}

pub open spec fn valid_u32_text(s: Seq<char>) -> bool {
    try_parse_u32_spec(s) is Some
}

/// The best-effort integer parse: the value of the text, or zero when the
/// text is not a well-formed integer.
pub open spec fn parse_u32_spec(s: Seq<char>) -> u32 {
    match try_parse_u32_spec(s) {
        Some(v) => v,
        None => 0,
    }
}

/// Parses an unsigned integer, reporting failure.
pub fn try_parse_u32(s: &str) -> (r: Option<u32>)
    ensures
        r == try_parse_u32_spec(s@),
{
    let n = s.unicode_len();
    let from: usize = if n > 0 && s.get_char(0) == '+' {
        1
    } else {
        0
    };
    proof {
        assert(u32_body(s@) =~= s@.subrange(from as int, n as int));
    }
    parse_digits_range(s, from, n)
}

/// Parses an unsigned integer; a cell that fails the parse yields the type's
/// zero default, and no error is raised.
pub fn parse_u32(s: &str) -> (r: u32)
    ensures
        r == parse_u32_spec(s@),
        !valid_u32_text(s@) ==> r == 0,
{
    match try_parse_u32(s) {
        Some(v) => v,
        None => 0,
    }
}

// ---------------------------------------------------------------------------
// Finding a delimiter
// ---------------------------------------------------------------------------

pub open spec fn find_char_spec(s: Seq<char>, c: char) -> Option<int>
    decreases s.len(),
{
    if s.len() == 0 {
        None
    } else if s[0] == c {
        Some(0int)
    } else {
        match find_char_spec(s.skip(1), c) {
            None => None,
            Some(i) => Some(i + 1),
        }
    }
}

proof fn lemma_find_char_some(s: Seq<char>, c: char, i: int)
    requires
        0 <= i < s.len(),
        s[i] == c,
        forall|j: int| 0 <= j < i ==> s[j] != c,
    ensures
        find_char_spec(s, c) == Some(i),
    decreases i,
{
    if i > 0 {
        assert(forall|j: int| 0 <= j < i - 1 ==> s.skip(1)[j] == s[j + 1]);
        lemma_find_char_some(s.skip(1), c, i - 1);
    }
}

proof fn lemma_find_char_none(s: Seq<char>, c: char)
    requires
        forall|j: int| 0 <= j < s.len() ==> s[j] != c,
    ensures
        find_char_spec(s, c) == None::<int>,
    decreases s.len(),
{
    if s.len() > 0 {
        assert(forall|j: int| 0 <= j < s.len() - 1 ==> s.skip(1)[j] == s[j + 1]);
        lemma_find_char_none(s.skip(1), c);
    }
}

/// The index of the first occurrence of `c` in `s`, if any.
pub fn find_char(s: &str, c: char) -> (r: Option<usize>)
    ensures
        match r {
            Some(i) => find_char_spec(s@, c) == Some(i as int) && i < s@.len() && s@[i as int]
                == c,
            None => find_char_spec(s@, c) == None::<int>,
        },
{
    let n = s.unicode_len();
    let mut i: usize = 0;
    while i < n
        invariant
            n == s@.len(),
            0 <= i <= n,
            forall|j: int| 0 <= j < i ==> s@[j] != c,
        decreases n - i,
    {
        if s.get_char(i) == c {
            proof {
                lemma_find_char_some(s@, c, i as int);
            }
            return Some(i);
        }
        i += 1;
    }
    proof {
        lemma_find_char_none(s@, c);
    }
    None
}

// ---------------------------------------------------------------------------
// Composite (made/attempted) cells
// ---------------------------------------------------------------------------

/// Decoding a two-part ratio cell: a cell holding exactly one delimiter
/// yields the pair of its best-effort-parsed sides; any other shape yields
/// `(0, 0)`.
pub open spec fn split_pair_spec(s: Seq<char>, delim: char) -> (u32, u32) {
    match find_char_spec(s, delim) {
        None => (0u32, 0u32),
        Some(i) => {
            if exists|j: int| i < j < s.len() && s[j] == delim {
                (0u32, 0u32)
            } else {
                (parse_u32_spec(s.take(i)), parse_u32_spec(s.skip(i + 1)))
            }
        },
    }
}

/// Splits a composite cell on `delim` and parses both sides, yielding zeroes
/// for a malformed composite.
pub fn split_pair(s: &str, delim: char) -> (r: (u32, u32))
    ensures
        r == split_pair_spec(s@, delim),
{
    let n = s.unicode_len();
    let first = match find_char(s, delim) {
        None => {
            return (0, 0);
        },
        Some(i) => i,
    };
    // reject a second occurrence
    let mut j = first + 1;
    while j < n
        invariant
            n == s@.len(),
            0 <= first < n,
            first < j <= n,
            find_char_spec(s@, delim) == Some(first as int),
            forall|t: int| first < t < j ==> s@[t] != delim,
        decreases n - j,
    {
        if s.get_char(j) == delim {
            proof {
                assert(first < j < s@.len() && s@[j as int] == delim);
            }
            return (0, 0);
        }
        j += 1;
    }
    let left = s.substring_char(0, first);
    let right = s.substring_char(first + 1, n);
    proof {
        assert(left@ =~= s@.take(first as int));
        assert(right@ =~= s@.skip(first as int + 1));
    }
    (parse_u32(left), parse_u32(right))
}

// ---------------------------------------------------------------------------
// Fixed-point decimals
// ---------------------------------------------------------------------------

/// A fractional statistic, held exactly as a signed count of thousandths.
///
/// Source cells carry values such as `45.6` or `-3.5`; the engine stores them
/// as `milli` thousandths with a sign, so that decoding stays exact. The text
/// must be an optional sign, a run of digits whose value fits in a `u32`, and
/// optionally a point followed by a run of digits; fractional digits beyond
/// the third are ignored. Any other shape fails the parse and yields the zero
/// default.
#[derive(Debug, Clone, Copy, PartialEq, Eq, Structural)]
pub struct Decimal {
    pub neg: bool,
    pub milli: u64,
}

impl Decimal {
    /// The zero default every fractional field falls back to.
    pub open spec fn spec_zero() -> Decimal {
        Decimal { neg: false, milli: 0 }
    }

    pub fn zero() -> (r: Decimal)
        ensures
            r == Decimal::spec_zero(),
    {
        Decimal { neg: false, milli: 0 }
    }
}

pub open spec fn dec_has_sign(s: Seq<char>) -> bool {
    s.len() > 0 && (s[0] == '+' || s[0] == '-')
}

pub open spec fn dec_body(s: Seq<char>) -> Seq<char> {
    if dec_has_sign(s) {
        s.skip(1)
    } else {
        s
    }
}

pub open spec fn dec_is_neg(s: Seq<char>) -> bool {
    s.len() > 0 && s[0] == '-'
}

pub open spec fn frac_digit(f: Seq<char>, i: int) -> int {
    if 0 <= i < f.len() {
        digit_val(f[i])
    } else {
        0
    }
}

/// The first three fractional digits, read as thousandths.
pub open spec fn frac_milli(f: Seq<char>) -> int {
    100 * frac_digit(f, 0) + 10 * frac_digit(f, 1) + frac_digit(f, 2)
}

pub open spec fn valid_dec_text(s: Seq<char>) -> bool {
    let b = dec_body(s);
    match find_char_spec(b, '.') {
        None => b.len() > 0 && all_digits(b) && digits_val(b) <= u32::MAX,
        Some(i) => i > 0 && all_digits(b.take(i)) && digits_val(b.take(i)) <= u32::MAX
            && all_digits(b.skip(i + 1)),
    }
}

pub open spec fn dec_milli(s: Seq<char>) -> int {
    let b = dec_body(s);
    match find_char_spec(b, '.') {
        None => 1000 * digits_val(b),
        Some(i) => 1000 * digits_val(b.take(i)) + frac_milli(b.skip(i + 1)),
    }
}

/// The best-effort decimal parse: the exact fixed-point value of the text, or
/// the zero default when the text is not a well-formed decimal.
pub open spec fn parse_dec_spec(s: Seq<char>) -> Decimal {
    if valid_dec_text(s) {
        Decimal { neg: dec_is_neg(s) && dec_milli(s) != 0, milli: dec_milli(s) as u64 }
    } else {
        Decimal::spec_zero()
    }
}

/// Parses a fractional cell; a cell that fails the parse yields the zero
/// default, and no error is raised.
pub fn parse_decimal(s: &str) -> (r: Decimal)
    ensures
        r == parse_dec_spec(s@),
        !valid_dec_text(s@) ==> r == Decimal::spec_zero(),
{
    let n = s.unicode_len();
    let mut neg = false;
    let mut from: usize = 0;
    if n > 0 && s.get_char(0) == '-' {
        neg = true;
        from = 1;
    } else if n > 0 && s.get_char(0) == '+' {
        from = 1;
    }
    let ghost b = dec_body(s@);
    proof {
        assert(b =~= s@.subrange(from as int, n as int));
        assert(neg == dec_is_neg(s@));
    }
    let body = s.substring_char(from, n);
    proof {
        assert(body@ =~= b);
    }
    let bn = body.unicode_len();
    match find_char(body, '.') {
        None => {
            proof {
                assert(b.subrange(0, b.len() as int) =~= b);
            }
            match try_parse_digits(body, 0, bn) {
                None => Decimal::zero(),
                Some(v) => {
                    proof {
                        lemma_digits_val_nonneg(b);
                    }
                    let milli = (v as u64) * 1000;
                    Decimal { neg: neg && milli != 0, milli }
                },
            }
        },
        Some(dot) => {
            proof {
                assert(b.subrange(0, dot as int) =~= b.take(dot as int));
            }
            let int_part = try_parse_digits(body, 0, dot);
            let v = match int_part {
                None => {
                    proof {
                        assert(try_digits(b.take(dot as int)) is None);
                        assert(!valid_dec_text(s@));
                    }
                    return Decimal::zero();
                },
                Some(v) => v,
            };
            // the fractional run must be all digits
            let ghost f = b.skip(dot as int + 1);
            let mut j = dot + 1;
            while j < bn
                invariant
                    bn == b.len(),
                    body@ == b,
                    b == dec_body(s@),
                    dot < j <= bn,
                    find_char_spec(b, '.') == Some(dot as int),
                    f == b.skip(dot as int + 1),
                    forall|t: int| 0 <= t < j - dot - 1 ==> is_digit_char(#[trigger] f[t]),
                decreases bn - j,
            {
                let c = body.get_char(j);
                proof {
                    assert(f[j - dot - 1] == b[j as int]);
                }
                if !is_digit(c) {
                    proof {
                        assert(!is_digit_char(f[j - dot - 1]));
                        assert(!all_digits(f));
                        assert(!valid_dec_text(s@));
                    }
                    return Decimal::zero();
                }
                j += 1;
            }
            proof {
                assert(all_digits(f));
                assert(forall|t: int| 0 <= t < f.len() ==> f[t] == b[dot + 1 + t]);
                if dot + 1 < bn {
                    assert(f[0] == b[dot as int + 1]);
                    assert(is_digit_char(b[dot as int + 1]));
                }
                if dot + 2 < bn {
                    assert(f[1] == b[dot as int + 2]);
                    assert(is_digit_char(b[dot as int + 2]));
                }
                if dot + 3 < bn {
                    assert(f[2] == b[dot as int + 3]);
                    assert(is_digit_char(b[dot as int + 3]));
                }
            }
            let d0: u64 = if bn - dot > 1 {
                ((body.get_char(dot + 1) as u32) - 48) as u64
            } else {
                0
            };
            let d1: u64 = if bn - dot > 2 {
                ((body.get_char(dot + 2) as u32) - 48) as u64
            } else {
                0
            };
            let d2: u64 = if bn - dot > 3 {
                ((body.get_char(dot + 3) as u32) - 48) as u64
            } else {
                0
            };
            proof {
                assert(forall|t: int| 0 <= t < f.len() ==> f[t] == b[dot + 1 + t]);
                assert(f.len() > 0 ==> frac_digit(f, 0) == digit_val(b[dot as int + 1]));
                assert(f.len() > 1 ==> frac_digit(f, 1) == digit_val(b[dot as int + 2]));
                assert(f.len() > 2 ==> frac_digit(f, 2) == digit_val(b[dot as int + 3]));
                assert(0 <= frac_milli(f) < 1000);
            }
            let fm: u64 = 100 * d0 + 10 * d1 + d2;
            let milli = (v as u64) * 1000 + fm;
            proof {
                assert(valid_dec_text(s@));
                assert(fm as int == frac_milli(f));
                lemma_digits_val_nonneg(b.take(dot as int));
                assert(v as int == digits_val(b.take(dot as int)));
                assert(milli as int == dec_milli(s@));
            }
            Decimal { neg: neg && milli != 0, milli }
        },
    }
}

/// Parses the digit run `s[from..to]` of `s`, reporting failure.
fn try_parse_digits(s: &str, from: usize, to: usize) -> (r: Option<u32>)
    requires
        from <= to <= s@.len(),
    ensures
        r == try_digits(s@.subrange(from as int, to as int)),
{
    parse_digits_range(s, from, to)
}

// ---------------------------------------------------------------------------
// Picking pieces out of header text
// ---------------------------------------------------------------------------

/// The text after the last newline (the whole text when it has none).
pub open spec fn last_segment_spec(s: Seq<char>) -> Seq<char>
    decreases s.len(),
{
    if s.len() == 0 {
        s
    } else if s.last() == '\n' {
        Seq::empty()
    } else {
        last_segment_spec(s.drop_last()).push(s.last())
    }
}

proof fn lemma_last_segment_at(s: Seq<char>, k: int)
    requires
        -1 <= k < s.len(),
        k >= 0 ==> s[k] == '\n',
        forall|j: int| k < j < s.len() ==> s[j] != '\n',
    ensures
        last_segment_spec(s) == s.skip(k + 1),
    decreases s.len(),
{
    if k == s.len() - 1 {
        if k >= 0 {
            assert(s.skip(k + 1) =~= Seq::<char>::empty());
        } else {
            assert(s.skip(0) =~= s);
        }
    } else {
        assert(s.last() != '\n');
        assert(forall|j: int| k < j < s.len() - 1 ==> s.drop_last()[j] == s[j]);
        lemma_last_segment_at(s.drop_last(), k);
        assert(s.drop_last().skip(k + 1).push(s.last()) =~= s.skip(k + 1));
    }
}

/// The text after the last newline.
pub fn last_segment(s: &str) -> (r: String)
    ensures
        r@ == last_segment_spec(s@),
{
    let n = s.unicode_len();
    let mut b: usize = n;
    while b > 0 && s.get_char(b - 1) != '\n'
        invariant
            n == s@.len(),
            0 <= b <= n,
            forall|j: int| b <= j < n ==> s@[j] != '\n',
        decreases b,
    {
        b -= 1;
    }
    proof {
        lemma_last_segment_at(s@, b - 1);
    }
    let out = s.substring_char(b, n);
    proof {
        assert(out@ =~= s@.skip(b as int));
    }
    String::from_str(out)
}

/// The maximal run of non-whitespace at the end of the text.
pub open spec fn tail_nonspace(s: Seq<char>) -> Seq<char>
    decreases s.len(),
{
    if s.len() == 0 || is_space_char(s.last()) {
        Seq::empty()
    } else {
        tail_nonspace(s.drop_last()).push(s.last())
    }
}

/// The last whitespace-separated token of the text, empty when the text is
/// all whitespace.
pub open spec fn last_token_spec(s: Seq<char>) -> Seq<char> {
    tail_nonspace(trim_end_spec(s))
}

proof fn lemma_tail_nonspace_at(t: Seq<char>, k: int)
    requires
        0 <= k <= t.len(),
        forall|j: int| k <= j < t.len() ==> !is_space_char(t[j]),
        k > 0 ==> is_space_char(t[k - 1]),
    ensures
        tail_nonspace(t) == t.skip(k),
    decreases t.len(),
{
    if k == t.len() {
        if k > 0 {
            assert(t.skip(k) =~= Seq::<char>::empty());
        } else {
            assert(t.skip(0) =~= t);
        }
    } else {
        assert(!is_space_char(t.last()));
        assert(forall|j: int| k <= j < t.len() - 1 ==> t.drop_last()[j] == t[j]);
        lemma_tail_nonspace_at(t.drop_last(), k);
        assert(t.drop_last().skip(k).push(t.last()) =~= t.skip(k));
    }
}

/// The last whitespace-separated token of the text.
pub fn last_token(s: &str) -> (r: String)
    ensures
        r@ == last_token_spec(s@),
{
    let n = s.unicode_len();
    let mut e: usize = n;
    while e > 0 && is_space(s.get_char(e - 1))
        invariant
            n == s@.len(),
            0 <= e <= n,
            forall|j: int| e <= j < n ==> is_space_char(s@[j]),
        decreases e,
    {
        e -= 1;
    }
    proof {
        lemma_trim_end_at(s@, e as int);
    }
    let mut b: usize = e;
    while b > 0 && !is_space(s.get_char(b - 1))
        invariant
            n == s@.len(),
            0 <= b <= e <= n,
            forall|j: int| b <= j < e ==> !is_space_char(s@[j]),
        decreases b,
    {
        b -= 1;
    }
    proof {
        let t = s@.take(e as int);
        assert(forall|j: int| b <= j < t.len() ==> t[j] == s@[j]);
        if b > 0 {
            assert(t[b - 1] == s@[b - 1]);
        }
        lemma_tail_nonspace_at(t, b as int);
        assert(t.skip(b as int) =~= s@.subrange(b as int, e as int));
    }
    let out = s.substring_char(b, e);
    String::from_str(out)
}

/// The text with every leading `c` removed.
pub open spec fn strip_leading_spec(s: Seq<char>, c: char) -> Seq<char>
    decreases s.len(),
{
    if s.len() > 0 && s[0] == c {
        strip_leading_spec(s.skip(1), c)
    } else {
        s
    }
}

proof fn lemma_strip_leading_at(s: Seq<char>, c: char, k: int)
    requires
        0 <= k <= s.len(),
        forall|j: int| 0 <= j < k ==> s[j] == c,
        k < s.len() ==> s[k] != c,
    ensures
        strip_leading_spec(s, c) == s.skip(k),
    decreases k,
{
    if k == 0 {
        assert(s.skip(0) =~= s);
    } else {
        assert(forall|j: int| 0 <= j < k - 1 ==> s.skip(1)[j] == s[j + 1]);
        lemma_strip_leading_at(s.skip(1), c, k - 1);
        assert(s.skip(1).skip(k - 1) =~= s.skip(k));
    }
}

/// The jersey number a header's player-data text yields: the text with its
/// leading bullet and hash marks removed and trimmed, parsed as an integer;
/// anything unparsable, or out of a byte's range, yields 255.
pub open spec fn jersey_spec(s: Seq<char>) -> u8 {
    let t = trim_spec(strip_leading_spec(strip_leading_spec(s, '\u{2022}'), '#'));
    match try_parse_u32_spec(t) {
        Some(v) => if v <= 255 {
            v as u8
        } else {
            255u8
        },
        None => 255u8,
    }
}

/// Reads a jersey number out of header text.
pub fn jersey_number(s: &str) -> (r: u8)
    ensures
        r == jersey_spec(s@),
{
    let a = strip_leading(s, '\u{2022}');
    let b = strip_leading(a.as_str(), '#');
    let c = trim_str(b.as_str());
    match try_parse_u32(c.as_str()) {
        Some(v) => if v <= 255 {
            v as u8
        } else {
            255
        },
        None => 255,
    }
}

/// The text with every leading `c` removed.
pub fn strip_leading(s: &str, c: char) -> (r: String)
    ensures
        r@ == strip_leading_spec(s@, c),
{
    let n = s.unicode_len();
    let mut b: usize = 0;
    while b < n && s.get_char(b) == c
        invariant
            n == s@.len(),
            0 <= b <= n,
            forall|j: int| 0 <= j < b ==> s@[j] == c,
        decreases n - b,
    {
        b += 1;
    }
    proof {
        lemma_strip_leading_at(s@, c, b as int);
    }
    let out = s.substring_char(b, n);
    proof {
        assert(out@ =~= s@.skip(b as int));
    }
    String::from_str(out)
}

} // verus!
