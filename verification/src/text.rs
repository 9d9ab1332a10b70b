//! Small verified building blocks for working with strings: character
//! collection, ASCII case folding, substring search, trimming, line
//! splitting and decimal parsing.  Contracts are stated over the
//! `Seq<char>` views of `str` and `String`.

use vstd::prelude::*;
use vstd::std_specs::iter::IteratorSpec;

verus! {

/// Relies on `String::push`: appends exactly one character to the string.
#[verifier::external_body]
pub(crate) fn push_char(s: &mut String, c: char)
    ensures
        final(s)@ == old(s)@.push(c),
{
    s.push(c)
}

/// Lower-case image of one character, folding only the ASCII range.
pub open spec fn lower_char(c: char) -> char {
    if 'A' <= c && c <= 'Z' {
        ((c as u32) + 32) as char
    } else {
        c
    }
}

/// Lower-case image of a character sequence, folding only the ASCII range.
pub open spec fn lower_seq(s: Seq<char>) -> Seq<char> {
    s.map_values(|c: char| lower_char(c))
}

/// ASCII lower-casing of one character.
pub fn lower_char_exec(c: char) -> (r: char)
    ensures
        r == lower_char(c),
{
    match c {
        'A' => 'a',
        'B' => 'b',
        'C' => 'c',
        'D' => 'd',
        'E' => 'e',
        'F' => 'f',
        'G' => 'g',
        'H' => 'h',
        'I' => 'i',
        'J' => 'j',
        'K' => 'k',
        'L' => 'l',
        'M' => 'm',
        'N' => 'n',
        'O' => 'o',
        'P' => 'p',
        'Q' => 'q',
        'R' => 'r',
        'S' => 's',
        'T' => 't',
        'U' => 'u',
        'V' => 'v',
        'W' => 'w',
        'X' => 'x',
        'Y' => 'y',
        'Z' => 'z',
        _ => c,
    }
}

/// Collects the characters of a string slice into a vector.
pub fn to_chars(s: &str) -> (r: Vec<char>)
    ensures
        r@ == s@,
{
    broadcast use vstd::string::axiom_spec_iter, vstd::string::next_postcondition;

    let mut it = s.chars();
    let mut r: Vec<char> = Vec::new();
    proof {
        assert(r@ + it.remaining() =~= s@);
    }
    loop
        invariant
            r@ + it.remaining() =~= s@,
            r@.len() <= s@.len(),
        ensures
            r@ =~= s@,
        decreases s@.len() - r@.len(),
    {
        match it.next() {
            Some(c) => {
                r.push(c);
                proof {
                    assert(r@ + it.remaining() =~= s@);
                }
            },
            None => {
                proof {
                    assert(r@ =~= s@);
                }
                break ;
            },
        }
    }
    r
}

/// Builds a `String` whose view is the given character sequence.
pub fn chars_to_string(v: &Vec<char>) -> (r: String)
    ensures
        r@ == v@,
{
    let mut r = String::new();
    let mut i: usize = 0;
    proof {
        assert(r@ =~= v@.subrange(0, 0));
    }
    while i < v.len()
        invariant
            i <= v.len(),
            r@ == v@.subrange(0, i as int),
        decreases v.len() - i,
    {
        push_char(&mut r, v[i]);
        i = i + 1;
        proof {
            assert(r@ =~= v@.subrange(0, i as int));
        }
    }
    proof {
        assert(v@.subrange(0, v@.len() as int) =~= v@);
    }
    r
}

/// Copies the range `[a, b)` of a character vector.
pub fn subvec(cs: &Vec<char>, a: usize, b: usize) -> (r: Vec<char>)
    requires
        a <= b <= cs@.len(),
    ensures
        r@ == cs@.subrange(a as int, b as int),
{
    let mut r: Vec<char> = Vec::new();
    let mut i: usize = a;
    proof {
        assert(r@ =~= cs@.subrange(a as int, a as int));
    }
    while i < b
        invariant
            a <= i <= b <= cs@.len(),
            r@ == cs@.subrange(a as int, i as int),
        decreases b - i,
    {
        r.push(cs[i]);
        i = i + 1;
        proof {
            assert(r@ =~= cs@.subrange(a as int, i as int));
        }
    }
    r
}

/// ASCII lower-casing of a whole string.
pub fn ascii_lowercase(s: &str) -> (r: String)
    ensures
        r@ == lower_seq(s@),
{
    let cs = to_chars(s);
    let mut r = String::new();
    let mut i: usize = 0;
    proof {
        assert(r@ =~= lower_seq(s@.subrange(0, 0)));
    }
    while i < cs.len()
        invariant
            i <= cs.len(),
            cs@ == s@,
            r@ == lower_seq(s@.subrange(0, i as int)),
        decreases cs.len() - i,
    {
        let lc = lower_char_exec(cs[i]);
        push_char(&mut r, lc);
        i = i + 1;
        proof {
            assert(r@ =~= lower_seq(s@.subrange(0, i as int)));
        }
    }
    proof {
        assert(s@.subrange(0, s@.len() as int) =~= s@);
    }
    r
}

/// Lower-cases a character vector in place of a string.
pub fn lowercase_chars(cs: &Vec<char>) -> (r: Vec<char>)
    ensures
        r@ == lower_seq(cs@),
{
    let mut r: Vec<char> = Vec::new();
    let mut i: usize = 0;
    proof {
        assert(r@ =~= lower_seq(cs@.subrange(0, 0)));
    }
    while i < cs.len()
        invariant
            i <= cs.len(),
            r@ == lower_seq(cs@.subrange(0, i as int)),
        decreases cs.len() - i,
    {
        let lc = lower_char_exec(cs[i]);
        r.push(lc);
        i = i + 1;
        proof {
            assert(r@ =~= lower_seq(cs@.subrange(0, i as int)));
        }
    }
    proof {
        assert(cs@.subrange(0, cs@.len() as int) =~= cs@);
    }
    r
}

/// String equality by view.
pub fn str_eq(a: &str, b: &str) -> (r: bool)
    ensures
        r == (a@ == b@),
{
    let sa: String = a.to_owned();
    let sb: String = b.to_owned();
    sa == sb
}

/// The needle occurs in the haystack starting at position `i`.
pub open spec fn matches_at(hay: Seq<char>, ndl: Seq<char>, i: int) -> bool {
    &&& 0 <= i
    &&& i + ndl.len() <= hay.len()
    &&& hay.subrange(i, i + ndl.len() as int) == ndl
}

/// The needle occurs somewhere in the haystack.
pub open spec fn contains_seq(hay: Seq<char>, ndl: Seq<char>) -> bool {
    exists|i: int| matches_at(hay, ndl, i)
}

/// Substring search over character vectors.
pub fn contains_chars(hay: &Vec<char>, ndl: &Vec<char>) -> (r: bool)
    ensures
        r == contains_seq(hay@, ndl@),
{
    if ndl.len() > hay.len() {
        proof {
            assert(forall|i: int| !matches_at(hay@, ndl@, i));
        }
        return false;
    }
    if ndl.len() == 0 {
        proof {
            assert(hay@.subrange(0, 0) =~= ndl@);
            assert(matches_at(hay@, ndl@, 0));
        }
        return true;
    }
    let mut i: usize = 0;
    while i <= hay.len() - ndl.len()
        invariant
            1 <= ndl@.len() <= hay@.len() <= usize::MAX,
            i <= hay@.len() - ndl@.len() + 1,
            forall|k: int| 0 <= k < i ==> !matches_at(hay@, ndl@, k),
        decreases hay.len() - ndl.len() - i + 1,
    {
        let mut j: usize = 0;
        let mut ok: bool = true;
        while j < ndl.len()
            invariant
                i + ndl@.len() <= hay@.len() <= usize::MAX,
                j <= ndl@.len(),
                ok ==> hay@.subrange(i as int, i + j as int) =~= ndl@.subrange(0, j as int),
                !ok ==> !matches_at(hay@, ndl@, i as int),
            decreases ndl.len() - j,
        {
            if hay[i + j] != ndl[j] {
                proof {
                    assert(!matches_at(hay@, ndl@, i as int)) by {
                        if matches_at(hay@, ndl@, i as int) {
                            assert(hay@.subrange(i as int, i + ndl@.len() as int)[j as int]
                                == hay@[i + j]);
                        }
                    }
                }
                ok = false;
                j = ndl.len();
            } else {
                proof {
                    if ok {
                        assert(hay@.subrange(i as int, i + (j + 1) as int) =~= hay@.subrange(
                            i as int,
                            i + j as int,
                        ).push(hay@[i + j]));
                        assert(ndl@.subrange(0, (j + 1) as int) =~= ndl@.subrange(0, j as int).push(
                            ndl@[j as int],
                        ));
                    }
                }
                j = j + 1;
            }
        }
        if ok {
            proof {
                assert(hay@.subrange(i as int, i + ndl@.len() as int) =~= ndl@);
                assert(matches_at(hay@, ndl@, i as int));
            }
            return true;
        }
        i = i + 1;
    }
    proof {
        assert(forall|k: int| #[trigger] matches_at(hay@, ndl@, k) ==> 0 <= k <= hay@.len()
            - ndl@.len());
    }
    false
}

/// Whether the vector begins with the given prefix.
pub fn starts_with_chars(v: &Vec<char>, prefix: &Vec<char>) -> (r: bool)
    ensures
        r == (v@.len() >= prefix@.len() && v@.subrange(0, prefix@.len() as int) == prefix@),
{
    if prefix.len() > v.len() {
        return false;
    }
    let mut j: usize = 0;
    while j < prefix.len()
        invariant
            prefix@.len() <= v@.len(),
            j <= prefix@.len(),
            v@.subrange(0, j as int) =~= prefix@.subrange(0, j as int),
        decreases prefix.len() - j,
    {
        if v[j] != prefix[j] {
            proof {
                assert(v@.subrange(0, prefix@.len() as int)[j as int] == v@[j as int]);
            }
            return false;
        }
        proof {
            assert(v@.subrange(0, (j + 1) as int) =~= v@.subrange(0, j as int).push(v@[j as int]));
            assert(prefix@.subrange(0, (j + 1) as int) =~= prefix@.subrange(0, j as int).push(
                prefix@[j as int],
            ));
        }
        j = j + 1;
    }
    proof {
        assert(prefix@.subrange(0, prefix@.len() as int) =~= prefix@);
    }
    true
}

/// Equality of two character vectors, by view.
pub fn chars_eq(a: &Vec<char>, b: &Vec<char>) -> (r: bool)
    ensures
        r == (a@ == b@),
{
    if a.len() != b.len() {
        return false;
    }
    let mut i: usize = 0;
    while i < a.len()
        invariant
            a@.len() == b@.len(),
            i <= a@.len(),
            forall|k: int| 0 <= k < i ==> a@[k] == b@[k],
        decreases a.len() - i,
    {
        if a[i] != b[i] {
            return false;
        }
        i = i + 1;
    }
    proof {
        assert(a@ =~= b@);
    }
    true
}

/// Whether `s` begins with `pat`.
pub open spec fn begins_with(s: Seq<char>, pat: Seq<char>) -> bool {
    s.len() >= pat.len() && s.subrange(0, pat.len() as int) == pat
}

/// ASCII whitespace, as trimmed from the ends of parsed lines.
pub open spec fn is_space(c: char) -> bool {
    c == ' ' || c == '\t' || c == '\r' || c == '\n'
}

/// Whether a character is an ASCII whitespace character.
pub fn is_space_exec(c: char) -> (r: bool)
    ensures
        r == is_space(c),
{
    c == ' ' || c == '\t' || c == '\r' || c == '\n'
}

/// Index of the first non-space character, or the length if none.
pub open spec fn trim_start_index(s: Seq<char>) -> int
    decreases s.len(),
{
    if s.len() == 0 {
        0
    } else if is_space(s[0]) {
        1 + trim_start_index(s.drop_first())
    } else {
        0
    }
}

/// Index one past the last non-space character, or 0 if all are spaces.
pub open spec fn trim_end_index(s: Seq<char>) -> int
    decreases s.len(),
{
    if s.len() == 0 {
        0
    } else if is_space(s[s.len() - 1]) {
        trim_end_index(s.drop_last())
    } else {
        s.len() as int
    }
}

/// The sequence with leading and trailing ASCII whitespace removed.
pub open spec fn trim_seq(s: Seq<char>) -> Seq<char> {
    if trim_start_index(s) <= trim_end_index(s) {
        s.subrange(trim_start_index(s), trim_end_index(s))
    } else {
        Seq::empty()
    }
}

proof fn lemma_trim_start_bounds(s: Seq<char>)
    ensures
        0 <= trim_start_index(s) <= s.len(),
        forall|k: int| 0 <= k < trim_start_index(s) ==> is_space(s[k]),
        trim_start_index(s) < s.len() ==> !is_space(s[trim_start_index(s)]),
    decreases s.len(),
{
    if s.len() > 0 && is_space(s[0]) {
        let t = s.drop_first();
        lemma_trim_start_bounds(t);
        assert forall|k: int| 0 <= k < trim_start_index(s) implies is_space(s[k]) by {
            if k > 0 {
                assert(is_space(t[k - 1]));
                assert(t[k - 1] == s[k]);
            }
        }
        if trim_start_index(s) < s.len() {
            assert(!is_space(t[trim_start_index(t)]));
            assert(t[trim_start_index(t)] == s[trim_start_index(s)]);
        }
    }
}

proof fn lemma_trim_end_bounds(s: Seq<char>)
    ensures
        0 <= trim_end_index(s) <= s.len(),
        forall|k: int| trim_end_index(s) <= k < s.len() ==> is_space(s[k]),
        trim_end_index(s) > 0 ==> !is_space(s[trim_end_index(s) - 1]),
    decreases s.len(),
{
    if s.len() > 0 && is_space(s[s.len() - 1]) {
        let t = s.drop_last();
        lemma_trim_end_bounds(t);
        assert forall|k: int| trim_end_index(s) <= k < s.len() implies is_space(s[k]) by {
            if k < s.len() - 1 {
                assert(is_space(t[k]));
                assert(t[k] == s[k]);
            }
        }
        if trim_end_index(s) > 0 {
            assert(!is_space(t[trim_end_index(t) - 1]));
            assert(t[trim_end_index(t) - 1] == s[trim_end_index(s) - 1]);
        }
    }
}

/// When every position before `start` and from `end` on is a space and the
/// two scans met, the whole string is spaces up to trimming.
proof fn lemma_all_space_trim(s: Seq<char>, start: int, end: int)
    requires
        0 <= start <= s.len(),
        0 <= end <= s.len(),
        start >= end,
        forall|k: int| 0 <= k < start ==> is_space(s[k]),
        forall|k: int| end <= k < s.len() ==> is_space(s[k]),
    ensures
        trim_start_index(s) >= trim_end_index(s),
{
    lemma_trim_start_bounds(s);
    lemma_trim_end_bounds(s);
    if trim_start_index(s) < trim_end_index(s) {
        let i = trim_start_index(s);
        let j = trim_end_index(s) - 1;
        assert(!is_space(s[i]));
        assert(!is_space(s[j]));
        assert(false);
    }
}

/// When both scans stopped at non-space characters, the scan indices are
/// exactly the trim indices.
proof fn lemma_trim_indices_match(s: Seq<char>, start: int, end: int)
    requires
        0 <= start < end <= s.len(),
        forall|k: int| 0 <= k < start ==> is_space(s[k]),
        forall|k: int| end <= k < s.len() ==> is_space(s[k]),
        !is_space(s[start]),
        !is_space(s[end - 1]),
    ensures
        trim_start_index(s) == start,
        trim_end_index(s) == end,
{
    lemma_trim_start_bounds(s);
    lemma_trim_end_bounds(s);
    let ts = trim_start_index(s);
    if ts < start {
        assert(is_space(s[ts]));
        assert(false);
    }
    if ts > start {
        assert(is_space(s[start]));
        assert(false);
    }
    let te = trim_end_index(s);
    if te > end {
        assert(is_space(s[te - 1]));
        assert(false);
    }
    if te < end {
        assert(is_space(s[end - 1]));
        assert(false);
    }
}

/// Removes leading and trailing ASCII whitespace from a character vector.
pub fn trim_chars(s: &Vec<char>) -> (r: Vec<char>)
    ensures
        r@ == trim_seq(s@),
{
    let mut start: usize = 0;
    while start < s.len() && is_space_exec(s[start])
        invariant
            start <= s@.len(),
            forall|k: int| 0 <= k < start ==> is_space(s@[k]),
        decreases s.len() - start,
    {
        start = start + 1;
    }
    let mut end: usize = s.len();
    while end > start && is_space_exec(s[end - 1])
        invariant
            start <= end <= s@.len(),
            forall|k: int| end <= k < s@.len() ==> is_space(s@[k]),
        decreases end,
    {
        end = end - 1;
    }
    proof {
        lemma_trim_start_bounds(s@);
        lemma_trim_end_bounds(s@);
        if start >= end {
            lemma_all_space_trim(s@, start as int, end as int);
        } else {
            lemma_trim_indices_match(s@, start as int, end as int);
        }
    }
    let r = subvec(s, start, end);
    proof {
        if start >= end {
            assert(r@ =~= Seq::<char>::empty());
            if trim_start_index(s@) <= trim_end_index(s@) {
                assert(s@.subrange(trim_start_index(s@), trim_end_index(s@)) =~= Seq::<
                    char,
                >::empty());
            }
        }
    }
    r
}

/// An ASCII decimal digit.
pub open spec fn is_digit(c: char) -> bool {
    '0' <= c && c <= '9'
}

/// Whether a character is an ASCII decimal digit.
pub fn is_digit_exec(c: char) -> (r: bool)
    ensures
        r == is_digit(c),
{
    '0' <= c && c <= '9'
}

/// Numeric value of a digit sequence read in base ten, without a bound.
pub open spec fn digits_value(s: Seq<char>) -> int
    decreases s.len(),
{
    if s.len() == 0 {
        0
    } else {
        digits_value(s.drop_last()) * 10 + (s[s.len() - 1] as int - '0' as int)
    }
}

/// A non-empty, all-digit sequence.
pub open spec fn all_digits(s: Seq<char>) -> bool {
    s.len() > 0 && forall|k: int| 0 <= k < s.len() ==> is_digit(#[trigger] s[k])
}

/// What parsing a digit run as a `u32` yields: the value when the run is
/// non-empty, made of digits only, and fits; `None` otherwise.
pub open spec fn parse_u32_spec(s: Seq<char>) -> Option<u32> {
    if all_digits(s) && digits_value(s) <= u32::MAX {
        Some(digits_value(s) as u32)
    } else {
        None
    }
}

proof fn lemma_digits_value_nonneg(s: Seq<char>)
    requires
        forall|k: int| 0 <= k < s.len() ==> is_digit(#[trigger] s[k]),
    ensures
        digits_value(s) >= 0,
    decreases s.len(),
{
    if s.len() > 0 {
        lemma_digits_value_nonneg(s.drop_last());
    }
}

/// The value of a digit run is at least the value of any of its prefixes.
proof fn lemma_digit_prefix_monotone(s: Seq<char>, j: int)
    requires
        0 <= j <= s.len(),
        forall|k: int| 0 <= k < s.len() ==> is_digit(#[trigger] s[k]),
    ensures
        digits_value(s) >= digits_value(s.subrange(0, j)),
    decreases s.len() - j,
{
    if j < s.len() {
        lemma_digit_prefix_monotone(s, j + 1);
        let p = s.subrange(0, j + 1);
        assert(p.drop_last() =~= s.subrange(0, j));
        assert(digits_value(p) == digits_value(s.subrange(0, j)) * 10 + (s[j] as int
            - '0' as int));
        lemma_digits_value_nonneg(s.subrange(0, j));
        assert(digits_value(s.subrange(0, j)) * 10 >= digits_value(s.subrange(0, j))) by (nonlinear_arith)
            requires
                digits_value(s.subrange(0, j)) >= 0,
        ;
    } else {
        assert(s.subrange(0, s.len() as int) =~= s);
    }
}

/// Parses a base-ten `u32` from a character vector.
pub fn parse_u32_chars(s: &Vec<char>) -> (r: Option<u32>)
    ensures
        r == parse_u32_spec(s@),
{
    if s.len() == 0 {
        return None;
    }
    let mut acc: u64 = 0;
    let mut i: usize = 0;
    proof {
        assert(s@.subrange(0, 0) =~= Seq::<char>::empty());
    }
    while i < s.len()
        invariant
            i <= s@.len(),
            s@.len() > 0,
            forall|k: int| 0 <= k < i ==> is_digit(#[trigger] s@[k]),
            acc == digits_value(s@.subrange(0, i as int)),
            acc <= u32::MAX,
        decreases s.len() - i,
    {
        let c = s[i];
        if !is_digit_exec(c) {
            return None;
        }
        let d: u64 = (c as u32 as u64) - ('0' as u32 as u64);
        proof {
            assert(s@.subrange(0, (i + 1) as int).drop_last() =~= s@.subrange(0, i as int));
        }
        if acc > (0xFFFF_FFFFu64 - d) / 10 {
            proof {
                assert(acc * 10 + d > u32::MAX) by (nonlinear_arith)
                    requires
                        acc > (0xFFFF_FFFFu64 - d) / 10,
                        d <= 9,
                ;
                assert(digits_value(s@.subrange(0, (i + 1) as int)) > u32::MAX);
                lemma_digit_prefix_overflow(s@, i as int);
            }
            return None;
        }
        proof {
            assert(acc * 10 + d <= u32::MAX) by (nonlinear_arith)
                requires
                    acc <= (0xFFFF_FFFFu64 - d) / 10,
                    d <= 9,
            ;
        }
        acc = acc * 10 + d;
        i = i + 1;
    }
    proof {
        assert(s@.subrange(0, s@.len() as int) =~= s@);
    }
    Some(acc as u32)
}

/// Once a digit prefix exceeds `u32::MAX`, the whole run does too.
proof fn lemma_digit_prefix_overflow(s: Seq<char>, i: int)
    requires
        0 <= i < s.len(),
        forall|k: int| 0 <= k <= i ==> is_digit(#[trigger] s[k]),
        digits_value(s.subrange(0, i + 1)) > u32::MAX,
    ensures
        parse_u32_spec(s) is None,
{
    if all_digits(s) {
        lemma_digit_prefix_monotone(s, i + 1);
    }
}

/// The maximal digit runs of a sequence, in order: maximal non-empty
/// stretches of consecutive ASCII digits.
pub open spec fn digit_runs(s: Seq<char>) -> Seq<Seq<char>>
    decreases s.len(),
{
    if s.len() == 0 {
        Seq::empty()
    } else {
        let rest = digit_runs(s.drop_first());
        if !is_digit(s[0]) {
            rest
        } else if s.len() > 1 && is_digit(s[1]) {
            seq![seq![s[0]] + rest[0]] + rest.drop_first()
        } else {
            seq![seq![s[0]]] + rest
        }
    }
}

/// A run of `m` digits at the front, ended by the end of the sequence or
/// a non-digit, is the first digit run.
proof fn lemma_digit_runs_at(s: Seq<char>, m: int)
    requires
        1 <= m <= s.len(),
        forall|k: int| 0 <= k < m ==> is_digit(#[trigger] s[k]),
        m == s.len() || !is_digit(s[m]),
    ensures
        digit_runs(s) =~= seq![s.subrange(0, m)] + digit_runs(s.subrange(m, s.len() as int)),
    decreases m,
{
    let t = s.drop_first();
    assert(forall|k: int| 0 <= k < t.len() ==> t[k] == s[k + 1]);
    if m == 1 {
        if s.len() > 1 {
            assert(!is_digit(s[1]));
            assert(digit_runs(s) =~= seq![seq![s[0]]] + digit_runs(t));
            assert(seq![s[0]] =~= s.subrange(0, 1));
            assert(t =~= s.subrange(1, s.len() as int));
        } else {
            assert(t =~= Seq::<char>::empty());
            assert(seq![s[0]] =~= s.subrange(0, 1));
            assert(s.subrange(1, s.len() as int) =~= Seq::<char>::empty());
        }
    } else {
        assert(is_digit(s[1]));
        lemma_digit_runs_at(t, m - 1);
        let rest = digit_runs(t);
        assert(rest[0] == t.subrange(0, m - 1));
        assert(seq![s[0]] + t.subrange(0, m - 1) =~= s.subrange(0, m));
        assert(rest.drop_first() =~= digit_runs(t.subrange(m - 1, t.len() as int)));
        assert(t.subrange(m - 1, t.len() as int) =~= s.subrange(m, s.len() as int));
    }
}

/// Collects the maximal digit runs of a character vector.
pub fn digit_runs_exec(cs: &Vec<char>) -> (r: Vec<Vec<char>>)
    ensures
        r@.map_values(|l: Vec<char>| l@) == digit_runs(cs@),
{
    let mut r: Vec<Vec<char>> = Vec::new();
    let mut i: usize = 0;
    proof {
        assert(r@.map_values(|l: Vec<char>| l@) =~= Seq::<Seq<char>>::empty());
        assert(cs@.subrange(0, cs@.len() as int) =~= cs@);
    }
    while i < cs.len()
        invariant
            i <= cs@.len(),
            digit_runs(cs@) =~= r@.map_values(|l: Vec<char>| l@) + digit_runs(
                cs@.subrange(i as int, cs@.len() as int),
            ),
        decreases cs@.len() - i,
    {
        let ghost tail = cs@.subrange(i as int, cs@.len() as int);
        if !is_digit_exec(cs[i]) {
            proof {
                assert(tail[0] == cs@[i as int]);
                assert(tail.drop_first() =~= cs@.subrange((i + 1) as int, cs@.len() as int));
            }
            i = i + 1;
        } else {
            let mut j: usize = i + 1;
            while j < cs.len() && is_digit_exec(cs[j])
                invariant
                    i < j <= cs@.len(),
                    forall|k: int| i <= k < j ==> is_digit(#[trigger] cs@[k]),
                decreases cs@.len() - j,
            {
                j = j + 1;
            }
            let run = subvec(cs, i, j);
            let ghost old_map = r@.map_values(|l: Vec<char>| l@);
            proof {
                assert(forall|k: int| 0 <= k < j - i ==> tail[k] == cs@[k + i]);
                lemma_digit_runs_at(tail, j - i as int);
                assert(tail.subrange(0, j - i as int) =~= run@);
                assert(tail.subrange(j - i as int, tail.len() as int) =~= cs@.subrange(
                    j as int,
                    cs@.len() as int,
                ));
            }
            r.push(run);
            i = j;
            proof {
                let newtail = cs@.subrange(i as int, cs@.len() as int);
                assert(r@.map_values(|l: Vec<char>| l@) =~= old_map.push(run@));
                assert(old_map + (seq![run@] + digit_runs(newtail)) =~= old_map.push(run@)
                    + digit_runs(newtail));
                assert(digit_runs(cs@) =~= r@.map_values(|l: Vec<char>| l@) + digit_runs(newtail));
            }
        }
    }
    proof {
        assert(cs@.subrange(cs@.len() as int, cs@.len() as int) =~= Seq::<char>::empty());
        assert(digit_runs(cs@) =~= r@.map_values(|l: Vec<char>| l@));
    }
    r
}

/// The sequence with every repetition of the prefix `pat` removed from
/// the front.
pub open spec fn strip_all(s: Seq<char>, pat: Seq<char>) -> Seq<char>
    decreases s.len(),
{
    if pat.len() > 0 && s.len() >= pat.len() && s.subrange(0, pat.len() as int) == pat {
        strip_all(s.subrange(pat.len() as int, s.len() as int), pat)
    } else {
        s
    }
}

/// Removes every repetition of the prefix `pat` from the front.
pub fn strip_all_chars(v: Vec<char>, pat: &Vec<char>) -> (r: Vec<char>)
    requires
        pat@.len() > 0,
    ensures
        r@ == strip_all(v@, pat@),
{
    let mut cur = v;
    loop
        invariant
            pat@.len() > 0,
            strip_all(cur@, pat@) == strip_all(v@, pat@),
        ensures
            strip_all(v@, pat@) == cur@,
        decreases cur@.len(),
    {
        if !starts_with_chars(&cur, pat) {
            proof {
                assert(strip_all(cur@, pat@) == cur@);
            }
            break ;
        }
        let next = subvec(&cur, pat.len(), cur.len());
        proof {
            assert(strip_all(cur@, pat@) == strip_all(next@, pat@));
        }
        cur = next;
    }
    cur
}

/// The first position at which `pat` occurs in `s` at or after `i`.
pub open spec fn first_pos_from(s: Seq<char>, pat: Seq<char>, i: int) -> Option<int>
    decreases s.len() - i + 1,
{
    if i < 0 || i + pat.len() > s.len() {
        None
    } else if matches_at(s, pat, i) {
        Some(i)
    } else {
        first_pos_from(s, pat, i + 1)
    }
}

/// The first position at which `pat` occurs in `s`.
pub open spec fn first_pos(s: Seq<char>, pat: Seq<char>) -> Option<int> {
    first_pos_from(s, pat, 0)
}

proof fn lemma_first_pos_skip(s: Seq<char>, pat: Seq<char>, i: int)
    requires
        0 <= i,
        forall|k: int| 0 <= k < i ==> !matches_at(s, pat, k),
    ensures
        first_pos(s, pat) == first_pos_from(s, pat, i),
    decreases i,
{
    if i > 0 {
        lemma_first_pos_skip(s, pat, i - 1);
        if (i - 1) + pat.len() > s.len() {
            assert(first_pos_from(s, pat, i - 1) is None);
            assert(first_pos_from(s, pat, i) is None);
        }
    }
}

/// A found first position is a real occurrence.
pub proof fn lemma_first_pos_some(s: Seq<char>, pat: Seq<char>, j: int, i: int)
    requires
        first_pos_from(s, pat, j) == Some(i),
    ensures
        matches_at(s, pat, i),
        j <= i,
    decreases s.len() - j + 1,
{
    if !(j < 0 || j + pat.len() > s.len()) && !matches_at(s, pat, j) {
        lemma_first_pos_some(s, pat, j + 1, i);
    }
}

/// Finds the first occurrence of `pat` in `v`.
pub fn find_sub(v: &Vec<char>, pat: &Vec<char>) -> (r: Option<usize>)
    ensures
        match r {
            Some(i) => first_pos(v@, pat@) == Some(i as int),
            None => first_pos(v@, pat@) is None,
        },
{
    if pat.len() > v.len() {
        proof {
            assert(first_pos_from(v@, pat@, 0) is None);
        }
        return None;
    }
    if pat.len() == 0 {
        proof {
            assert(v@.subrange(0, 0) =~= pat@);
            assert(matches_at(v@, pat@, 0));
        }
        return Some(0);
    }
    let mut i: usize = 0;
    while i <= v.len() - pat.len()
        invariant
            1 <= pat@.len() <= v@.len() <= usize::MAX,
            i <= v@.len() - pat@.len() + 1,
            forall|k: int| 0 <= k < i ==> !matches_at(v@, pat@, k),
        decreases v.len() - pat.len() - i + 1,
    {
        let mut j: usize = 0;
        let mut ok: bool = true;
        while j < pat.len()
            invariant
                i + pat@.len() <= v@.len() <= usize::MAX,
                j <= pat@.len(),
                ok ==> v@.subrange(i as int, i + j as int) =~= pat@.subrange(0, j as int),
                !ok ==> !matches_at(v@, pat@, i as int),
            decreases pat.len() - j,
        {
            if v[i + j] != pat[j] {
                proof {
                    assert(!matches_at(v@, pat@, i as int)) by {
                        if matches_at(v@, pat@, i as int) {
                            assert(v@.subrange(i as int, i + pat@.len() as int)[j as int] == v@[i
                                + j]);
                        }
                    }
                }
                ok = false;
                j = pat.len();
            } else {
                proof {
                    if ok {
                        assert(v@.subrange(i as int, i + (j + 1) as int) =~= v@.subrange(
                            i as int,
                            i + j as int,
                        ).push(v@[i + j]));
                        assert(pat@.subrange(0, (j + 1) as int) =~= pat@.subrange(0, j as int).push(
                            pat@[j as int],
                        ));
                    }
                }
                j = j + 1;
            }
        }
        if ok {
            proof {
                assert(v@.subrange(i as int, i + pat@.len() as int) =~= pat@);
                assert(matches_at(v@, pat@, i as int));
                lemma_first_pos_skip(v@, pat@, i as int);
            }
            return Some(i);
        }
        i = i + 1;
    }
    proof {
        lemma_first_pos_skip(v@, pat@, i as int);
        assert(first_pos_from(v@, pat@, i as int) is None) by {
            assert(i as int + pat@.len() > v@.len());
        }
    }
    None
}

/// Splits a character sequence into its '\n'-separated segments; every
/// segment is kept, including a final empty one after a trailing newline.
pub open spec fn split_lines_spec(s: Seq<char>) -> Seq<Seq<char>>
    decreases s.len(),
{
    if s.len() == 0 {
        seq![Seq::empty()]
    } else if s[0] == '\n' {
        seq![Seq::<char>::empty()] + split_lines_spec(s.drop_first())
    } else {
        let rest = split_lines_spec(s.drop_first());
        seq![seq![s[0]] + rest[0]] + rest.drop_first()
    }
}

/// The split always yields at least one segment.
pub proof fn lemma_split_lines_len(s: Seq<char>)
    ensures
        split_lines_spec(s).len() >= 1,
    decreases s.len(),
{
    if s.len() > 0 {
        lemma_split_lines_len(s.drop_first());
    }
}

/// If the first newline of `s` is at `q`, the split is the prefix before it
/// followed by the split of what comes after it.
proof fn lemma_split_at_first_newline(s: Seq<char>, q: int)
    requires
        0 <= q < s.len(),
        s[q] == '\n',
        forall|k: int| 0 <= k < q ==> s[k] != '\n',
    ensures
        split_lines_spec(s) =~= seq![s.subrange(0, q)] + split_lines_spec(
            s.subrange(q + 1, s.len() as int),
        ),
    decreases s.len(),
{
    lemma_split_lines_len(s);
    if q == 0 {
        assert(s.subrange(0, 0) =~= Seq::<char>::empty());
        assert(s.drop_first() =~= s.subrange(1, s.len() as int));
    } else {
        let t = s.drop_first();
        assert(forall|k: int| 0 <= k < q - 1 ==> t[k] != '\n');
        assert(t[q - 1] == '\n');
        lemma_split_at_first_newline(t, q - 1);
        lemma_split_lines_len(t.subrange(q, t.len() as int));
        let rest = split_lines_spec(t);
        assert(rest[0] =~= t.subrange(0, q - 1));
        assert(seq![s[0]] + t.subrange(0, q - 1) =~= s.subrange(0, q));
        assert(rest.drop_first() =~= split_lines_spec(t.subrange(q - 1 + 1, t.len() as int)));
        assert(t.subrange(q, t.len() as int) =~= s.subrange(q + 1, s.len() as int));
    }
}

/// With no newline in `s`, the split is `s` alone.
proof fn lemma_split_no_newline(s: Seq<char>)
    requires
        forall|k: int| 0 <= k < s.len() ==> s[k] != '\n',
    ensures
        split_lines_spec(s) =~= seq![s],
    decreases s.len(),
{
    if s.len() == 0 {
        assert(s =~= Seq::<char>::empty());
    } else {
        let t = s.drop_first();
        assert(forall|k: int| 0 <= k < t.len() ==> t[k] == s[k + 1]);
        lemma_split_no_newline(t);
        let rest = split_lines_spec(t);
        assert(rest.len() == 1 && rest[0] == t);
        assert(seq![s[0]] + rest[0] =~= s);
        assert(rest.drop_first() =~= Seq::<Seq<char>>::empty());
        assert(split_lines_spec(s) =~= seq![seq![s[0]] + rest[0]] + rest.drop_first());
    }
}

/// Splits a string into its lines on '\n'.
pub fn split_lines(s: &str) -> (r: Vec<Vec<char>>)
    ensures
        r@.map_values(|l: Vec<char>| l@) == split_lines_spec(s@),
{
    let cs = to_chars(s);
    let mut r: Vec<Vec<char>> = Vec::new();
    let mut p: usize = 0;
    proof {
        assert(r@.map_values(|l: Vec<char>| l@) =~= Seq::<Seq<char>>::empty());
        assert(cs@.subrange(0, cs@.len() as int) =~= cs@);
        assert(split_lines_spec(s@) =~= r@.map_values(|l: Vec<char>| l@) + split_lines_spec(
            cs@.subrange(0, cs@.len() as int),
        ));
    }
    loop
        invariant_except_break
            split_lines_spec(s@) =~= r@.map_values(|l: Vec<char>| l@) + split_lines_spec(
                cs@.subrange(p as int, cs@.len() as int),
            ),
        invariant
            p <= cs@.len(),
            cs@ == s@,
        ensures
            r@.map_values(|l: Vec<char>| l@) =~= split_lines_spec(s@),
        decreases cs@.len() - p,
    {
        let ghost tail = cs@.subrange(p as int, cs@.len() as int);
        let mut q: usize = p;
        while q < cs.len() && cs[q] != '\n'
            invariant
                p <= q <= cs@.len(),
                forall|k: int| p <= k < q ==> cs@[k] != '\n',
            decreases cs@.len() - q,
        {
            q = q + 1;
        }
        let seg = subvec(&cs, p, q);
        let ghost old_map = r@.map_values(|l: Vec<char>| l@);
        if q == cs.len() {
            proof {
                assert(forall|k: int| 0 <= k < tail.len() ==> tail[k] != '\n');
                lemma_split_no_newline(tail);
                assert(seg@ =~= tail);
            }
            r.push(seg);
            proof {
                assert(r@.map_values(|l: Vec<char>| l@) =~= old_map.push(seg@));
                assert(old_map + split_lines_spec(tail) =~= old_map.push(seg@));
                assert(r@.map_values(|l: Vec<char>| l@) =~= split_lines_spec(s@));
            }
            break ;
        } else {
            proof {
                assert(tail[q - p] == '\n');
                assert(forall|k: int| 0 <= k < q - p ==> tail[k] == cs@[k + p] && tail[k] != '\n');
                lemma_split_at_first_newline(tail, q - p as int);
                assert(tail.subrange(0, q - p as int) =~= seg@);
                assert(tail.subrange(q - p + 1, tail.len() as int) =~= cs@.subrange(
                    (q + 1) as int,
                    cs@.len() as int,
                ));
            }
            r.push(seg);
            p = q + 1;
            proof {
                let newtail = cs@.subrange(p as int, cs@.len() as int);
                assert(r@.map_values(|l: Vec<char>| l@) =~= old_map.push(seg@));
                assert(split_lines_spec(tail) =~= seq![seg@] + split_lines_spec(newtail));
                assert(old_map + (seq![seg@] + split_lines_spec(newtail)) =~= old_map.push(seg@)
                    + split_lines_spec(newtail));
                assert(split_lines_spec(s@) =~= r@.map_values(|l: Vec<char>| l@)
                    + split_lines_spec(newtail));
            }
        }
    }
    r
}

} // verus!
