//! Character-level text helpers with exact specifications over `Seq<char>`.
//!
//! Every helper here is stated over the character sequence (`@`) of the
//! strings involved, so callers can reason about headers, paths and
//! rendered output without looking at byte encodings.

use vstd::prelude::*;
use vstd::string::StringExecFns;

verus! {

broadcast use vstd::string::group_string_axioms;

// ---------------------------------------------------------------------------
// Specifications
// ---------------------------------------------------------------------------

/// Whether `p` is a prefix of `s`.
pub open spec fn has_prefix(s: Seq<char>, p: Seq<char>) -> bool {
    p.len() <= s.len() && s.subrange(0, p.len() as int) == p
}

/// Whether `p` occurs in `s` at position `i`.
pub open spec fn occurs_at(s: Seq<char>, p: Seq<char>, i: int) -> bool {
    0 <= i && i + p.len() <= s.len() && s.subrange(i, i + p.len()) == p
}

/// Whether `p` occurs anywhere in `s` (the empty pattern occurs everywhere).
pub open spec fn has_infix(s: Seq<char>, p: Seq<char>) -> bool {
    exists|i: int| occurs_at(s, p, i)
}

/// Case folding of one character, as far as it can make a character equal
/// to an ASCII letter: ASCII capitals become lower case and the Kelvin sign
/// becomes `k`; every other character is left alone.
pub open spec fn fold_char(c: char) -> char {
    if 'A' <= c && c <= 'Z' {
        ((c as u32) + 32) as char
    } else if c == '\u{212A}' {
        'k'
    } else {
        c
    }
}

/// ASCII-only lower casing of one character.
pub open spec fn ascii_lower(c: char) -> char {
    if 'A' <= c && c <= 'Z' {
        ((c as u32) + 32) as char
    } else {
        c
    }
}

/// Case folding of a whole sequence.
pub open spec fn fold_seq(s: Seq<char>) -> Seq<char> {
    s.map_values(|c: char| fold_char(c))
}

/// ASCII lower casing of a whole sequence.
pub open spec fn ascii_lower_seq(s: Seq<char>) -> Seq<char> {
    s.map_values(|c: char| ascii_lower(c))
}

/// Whether two sequences are equal ignoring ASCII case.
pub open spec fn eq_ignore_ascii_case_spec(a: Seq<char>, b: Seq<char>) -> bool {
    ascii_lower_seq(a) == ascii_lower_seq(b)
}

/// The character for a decimal digit.
pub open spec fn digit_char(d: nat) -> char {
    (('0' as u32) + d) as char
}

/// Decimal rendering of a natural number, without leading zeros.
pub open spec fn decimal(n: nat) -> Seq<char>
    decreases n,
{
    if n < 10 {
        seq![digit_char(n)]
    } else {
        decimal(n / 10).push(digit_char(n % 10))
    }
}

/// Whether a character is an ASCII decimal digit.
pub open spec fn is_digit(c: char) -> bool {
    '0' <= c && c <= '9'
}

/// Whether every character of `s` is an ASCII decimal digit.
pub open spec fn all_digits(s: Seq<char>) -> bool {
    forall|i: int| 0 <= i < s.len() ==> is_digit(#[trigger] s[i])
}

/// The value of a string of decimal digits (most significant first).
pub open spec fn digits_value(s: Seq<char>) -> nat
    decreases s.len(),
{
    if s.len() == 0 {
        0
    } else {
        digits_value(s.drop_last()) * 10 + ((s.last() as u32) - ('0' as u32)) as nat
    }
}

/// The digits that an unsigned integer parse reads: an optional leading `+`
/// is skipped.
pub open spec fn unsigned_body(s: Seq<char>) -> Seq<char> {
    if s.len() > 0 && s[0] == '+' {
        s.drop_first()
    } else {
        s
    }
}

/// Parse of an unsigned decimal integer no greater than `max`, as done by
/// `str::parse` for the unsigned integer types: an optional `+`, then one
/// or more ASCII digits and nothing else; values above `max` are rejected.
pub open spec fn parse_unsigned(s: Seq<char>, max: nat) -> Option<nat> {
    let body = unsigned_body(s);
    if body.len() > 0 && all_digits(body) && digits_value(body) <= max {
        Some(digits_value(body))
    } else {
        None
    }
}

// ---------------------------------------------------------------------------
// Lemmas
// ---------------------------------------------------------------------------

/// A longer digit string never has a smaller value.
pub proof fn lemma_digits_value_prefix(s: Seq<char>, i: int)
    requires
        0 <= i <= s.len(),
        all_digits(s),
    ensures
        digits_value(s.take(i)) <= digits_value(s),
    decreases s.len() - i,
{
    if i < s.len() {
        lemma_digits_value_prefix(s, i + 1);
        assert(s.take(i + 1).drop_last() == s.take(i));
        assert(is_digit(s[i]));
    } else {
        assert(s.take(i) == s);
    }
}

/// The decimal rendering of `n` consists of digits whose value is `n`, and
/// it does not start with a sign.
pub proof fn lemma_decimal_digits(n: nat)
    ensures
        decimal(n).len() > 0,
        all_digits(decimal(n)),
        digits_value(decimal(n)) == n,
        decimal(n)[0] != '+',
    decreases n,
{
    if n < 10 {
        assert((digit_char(n) as u32) == ('0' as u32) + n);
        assert(decimal(n).drop_last() =~= Seq::<char>::empty());
        assert(digits_value(Seq::<char>::empty()) == 0);
        assert(decimal(n).last() == digit_char(n));
    } else {
        lemma_decimal_digits(n / 10);
        let d = decimal(n);
        assert(d.drop_last() == decimal(n / 10));
        assert(d.last() == digit_char(n % 10));
        assert((digit_char(n % 10) as u32) == ('0' as u32) + n % 10);
        assert(digits_value(d) == digits_value(decimal(n / 10)) * 10 + n % 10);
        assert forall|i: int| 0 <= i < d.len() implies is_digit(#[trigger] d[i]) by {
            if i < d.len() - 1 {
                assert(d[i] == decimal(n / 10)[i]);
            }
        }
    }
}

/// Distinct numbers have distinct decimal renderings.
pub proof fn lemma_decimal_injective(a: nat, b: nat)
    ensures
        decimal(a) == decimal(b) ==> a == b,
{
    lemma_decimal_digits(a);
    lemma_decimal_digits(b);
}

/// Reading back the decimal rendering of a number gives the number.
pub proof fn lemma_parse_decimal(n: nat, max: nat)
    requires
        n <= max,
    ensures
        parse_unsigned(decimal(n), max) == Some(n),
{
    lemma_decimal_digits(n);
}

// ---------------------------------------------------------------------------
// Executable helpers
// ---------------------------------------------------------------------------

/// The characters of a string slice, as a vector.
pub fn chars_of(s: &str) -> (v: Vec<char>)
    ensures
        v@ == s@,
{
    let mut v: Vec<char> = Vec::new();
    for c in it: s.chars()
        invariant
            v@ == it.seq().take(it.index() as int),
            it.seq() == s@,
    {
        assert(it.seq().take(it.index() + 1) == it.seq().take(it.index() as int).push(c));
        v.push(c);
    }
    v
}

/// Appends one character to a string (`String::push`).
#[verifier::external_body]
pub(crate) fn push_char(s: &mut String, c: char)
    ensures
        final(s)@ == old(s)@.push(c),
{
    s.push(c);
}

/// A string holding exactly the given characters.
pub fn string_from_chars(v: &[char]) -> (s: String)
    ensures
        s@ == v@,
{
    let mut s = String::new();
    let mut i: usize = 0;
    while i < v.len()
        invariant
            i <= v.len(),
            s@ == v@.take(i as int),
        decreases v.len() - i,
    {
        assert(v@.take(i + 1) == v@.take(i as int).push(v@[i as int]));
        push_char(&mut s, v[i]);
        i = i + 1;
    }
    assert(v@.take(v@.len() as int) == v@);
    s
}

/// A fresh string holding the characters of `s`.
pub fn to_string(s: &str) -> (r: String)
    ensures
        r@ == s@,
{
    s.to_owned()
}

/// Appends a string slice to a string.
pub fn push_str(s: &mut String, t: &str)
    ensures
        final(s)@ == old(s)@ + t@,
{
    s.append(t);
}

/// Whether two string slices hold the same characters.
pub fn str_eq(a: &str, b: &str) -> (r: bool)
    ensures
        r == (a@ == b@),
{
    let x = a.to_owned();
    let y = b.to_owned();
    x == y
}

/// Whether two character vectors are equal.
pub fn chars_eq(a: &[char], b: &[char]) -> (r: bool)
    ensures
        r == (a@ == b@),
{
    if a.len() != b.len() {
        return false;
    }
    let mut i: usize = 0;
    while i < a.len()
        invariant
            a.len() == b.len(),
            i <= a.len(),
            a@.take(i as int) == b@.take(i as int),
        decreases a.len() - i,
    {
        if a[i] != b[i] {
            assert(a@[i as int] != b@[i as int]);
            return false;
        }
        assert(a@.take(i + 1) == a@.take(i as int).push(a@[i as int]));
        assert(b@.take(i + 1) == b@.take(i as int).push(b@[i as int]));
        i = i + 1;
    }
    assert(a@.take(a@.len() as int) == a@);
    assert(b@.take(b@.len() as int) == b@);
    true
}

/// Whether `p` occurs in `s` at position `at`.
pub fn chars_occur_at(s: &[char], p: &[char], at: usize) -> (r: bool)
    ensures
        r == occurs_at(s@, p@, at as int),
{
    if at > s.len() || p.len() > s.len() - at {
        return false;
    }
    let mut i: usize = 0;
    while i < p.len()
        invariant
            at + p.len() <= s.len(),
            i <= p.len(),
            s@.subrange(at as int, at + i) == p@.take(i as int),
        decreases p.len() - i,
    {
        if s[at + i] != p[i] {
            assert(s@.subrange(at as int, at + p.len())[i as int] != p@[i as int]);
            return false;
        }
        assert(s@.subrange(at as int, at + i + 1) == s@.subrange(at as int, at + i).push(
            s@[at + i],
        ));
        assert(p@.take(i + 1) == p@.take(i as int).push(p@[i as int]));
        i = i + 1;
    }
    assert(p@.take(p@.len() as int) == p@);
    true
}

/// Whether `p` is a prefix of `s`.
pub fn chars_starts_with(s: &[char], p: &[char]) -> (r: bool)
    ensures
        r == has_prefix(s@, p@),
{
    chars_occur_at(s, p, 0)
}

/// Whether `p` occurs anywhere in `s`.
pub fn chars_contains(s: &[char], p: &[char]) -> (r: bool)
    ensures
        r == has_infix(s@, p@),
{
    if p.len() > s.len() {
        assert forall|i: int| !occurs_at(s@, p@, i) by {}
        return false;
    }
    let last: usize = s.len() - p.len();
    let mut i: usize = 0;
    loop
        invariant
            p.len() <= s.len(),
            last == s.len() - p.len(),
            i <= last,
            forall|j: int| 0 <= j < i ==> !occurs_at(s@, p@, j),
        ensures
            forall|j: int| 0 <= j <= last ==> !occurs_at(s@, p@, j),
        decreases last - i,
    {
        if chars_occur_at(s, p, i) {
            return true;
        }
        if i == last {
            break;
        }
        i = i + 1;
    }
    assert forall|j: int| !occurs_at(s@, p@, j) by {
        if 0 <= j <= last {
        }
    }
    false
}

/// Whether `p` is a prefix of `s`.
pub fn starts_with(s: &str, p: &str) -> (r: bool)
    ensures
        r == has_prefix(s@, p@),
{
    let sv = chars_of(s);
    let pv = chars_of(p);
    chars_starts_with(&sv, &pv)
}

/// Whether `p` occurs anywhere in `s`.
pub fn contains(s: &str, p: &str) -> (r: bool)
    ensures
        r == has_infix(s@, p@),
{
    let sv = chars_of(s);
    let pv = chars_of(p);
    chars_contains(&sv, &pv)
}

/// ASCII lower casing of one character.
pub fn char_ascii_lower(c: char) -> (r: char)
    ensures
        r == ascii_lower(c),
{
    if 'A' <= c && c <= 'Z' {
        let b: u8 = (c as u32) as u8;
        let l: u8 = b + 32;
        l as char
    } else {
        c
    }
}

/// Case folding of one character (see [`fold_char`]).
pub fn char_fold(c: char) -> (r: char)
    ensures
        r == fold_char(c),
{
    if 'A' <= c && c <= 'Z' {
        char_ascii_lower(c)
    } else if c == '\u{212A}' {
        'k'
    } else {
        c
    }
}

/// Case folding of a character vector.
pub fn chars_fold(s: &[char]) -> (r: Vec<char>)
    ensures
        r@ == fold_seq(s@),
{
    let mut r: Vec<char> = Vec::new();
    let mut i: usize = 0;
    while i < s.len()
        invariant
            i <= s.len(),
            r@ == fold_seq(s@.take(i as int)),
        decreases s.len() - i,
    {
        let c = char_fold(s[i]);
        assert(fold_seq(s@.take(i + 1)) == fold_seq(s@.take(i as int)).push(fold_char(s@[i as int])));
        r.push(c);
        i = i + 1;
    }
    assert(s@.take(s@.len() as int) == s@);
    r
}

/// ASCII lower casing of a character vector.
pub fn chars_ascii_lower(s: &[char]) -> (r: Vec<char>)
    ensures
        r@ == ascii_lower_seq(s@),
{
    let mut r: Vec<char> = Vec::new();
    let mut i: usize = 0;
    while i < s.len()
        invariant
            i <= s.len(),
            r@ == ascii_lower_seq(s@.take(i as int)),
        decreases s.len() - i,
    {
        let c = char_ascii_lower(s[i]);
        assert(ascii_lower_seq(s@.take(i + 1)) == ascii_lower_seq(s@.take(i as int)).push(
            ascii_lower(s@[i as int]),
        ));
        r.push(c);
        i = i + 1;
    }
    assert(s@.take(s@.len() as int) == s@);
    r
}

/// The case-folded characters of a string slice.
pub fn fold_of(s: &str) -> (r: Vec<char>)
    ensures
        r@ == fold_seq(s@),
{
    let v = chars_of(s);
    chars_fold(&v)
}

/// Whether two string slices are equal ignoring ASCII case.
pub fn eq_ignore_ascii_case(a: &str, b: &str) -> (r: bool)
    ensures
        r == eq_ignore_ascii_case_spec(a@, b@),
{
    let av = chars_of(a);
    let bv = chars_of(b);
    let al = chars_ascii_lower(&av);
    let bl = chars_ascii_lower(&bv);
    chars_eq(&al, &bl)
}

/// The decimal rendering of an unsigned integer.
pub fn u64_to_decimal(n: u64) -> (s: String)
    ensures
        s@ == decimal(n as nat),
{
    let mut digits: Vec<char> = Vec::new();
    let mut m: u64 = n;
    // digits holds the rendering of the low part, least significant first
    let ghost mut done: nat = 0;
    while m >= 10
        invariant
            m as nat >= 1 || n == 0,
            decimal(n as nat) == decimal(m as nat) + digits@.reverse(),
        decreases m,
    {
        let d: u64 = m % 10;
        let c: char = ((('0' as u32) + (d as u32)) as u8) as char;
        assert(c == digit_char(d as nat)) by {
            assert((('0' as u32) + (d as u32)) < 256);
        }
        assert(decimal(m as nat) == decimal((m / 10) as nat).push(digit_char((m % 10) as nat)));
        let ghost old_digits = digits@;
        digits.push(c);
        assert(digits@.reverse() == seq![c] + old_digits.reverse()) by {
            assert(digits@ == old_digits.push(c));
            assert forall|k: int| 0 <= k < digits@.len() implies #[trigger] digits@.reverse()[k]
                == (seq![c] + old_digits.reverse())[k] by {}
            assert(digits@.reverse().len() == (seq![c] + old_digits.reverse()).len());
        }
        assert(decimal((m / 10) as nat).push(c) + old_digits.reverse() == decimal(
            (m / 10) as nat,
        ) + (seq![c] + old_digits.reverse()));
        m = m / 10;
    }
    let c0: char = ((('0' as u32) + (m as u32)) as u8) as char;
    assert(c0 == digit_char(m as nat));
    let mut s = String::new();
    push_char(&mut s, c0);
    assert(s@ == decimal(m as nat));
    let mut i: usize = digits.len();
    while i > 0
        invariant
            i <= digits.len(),
            s@ + digits@.take(i as int).reverse() == decimal(n as nat),
        decreases i,
    {
        i = i - 1;
        let ghost before = s@;
        push_char(&mut s, digits[i]);
        assert(digits@.take(i + 1).reverse() == seq![digits@[i as int]] + digits@.take(
            i as int,
        ).reverse()) by {
            assert forall|k: int| 0 <= k < i + 1 implies #[trigger] digits@.take(
                i + 1,
            ).reverse()[k] == (seq![digits@[i as int]] + digits@.take(i as int).reverse())[k] by {}
        }
        assert(before + digits@.take(i + 1).reverse() == before.push(digits@[i as int])
            + digits@.take(i as int).reverse());
    }
    assert(digits@.take(0).reverse() =~= Seq::<char>::empty());
    assert(s@ + Seq::<char>::empty() == s@);
    s
}

/// Parses an unsigned decimal integer no greater than `max` from
/// characters, as `str::parse` does for the unsigned integer types.
pub fn parse_unsigned_chars(s: &[char], max: u64) -> (r: Option<u64>)
    ensures
        match parse_unsigned(s@, max as nat) {
            Some(v) => r == Some(v as u64),
            None => r is None,
        },
{
    let start: usize = if s.len() > 0 && s[0] == '+' {
        1
    } else {
        0
    };
    let ghost body = unsigned_body(s@);
    assert(body == s@.skip(start as int));
    if start >= s.len() {
        return None;
    }
    let mut value: u64 = 0;
    let mut i: usize = start;
    while i < s.len()
        invariant
            start <= i <= s.len(),
            body == s@.skip(start as int),
            body == unsigned_body(s@),
            body.len() > 0,
            all_digits(body.take(i - start)),
            value as nat == digits_value(body.take(i - start)),
            value <= max,
        decreases s.len() - i,
    {
        let c = s[i];
        if !('0' <= c && c <= '9') {
            assert(body[i - start] == c);
            assert(!is_digit(body[i - start]));
            return None;
        }
        let d: u64 = ((c as u32) - ('0' as u32)) as u64;
        let ghost prefix = body.take(i - start + 1);
        assert(prefix.drop_last() == body.take(i - start));
        assert(prefix.last() == c);
        assert(digits_value(prefix) == digits_value(body.take(i - start)) * 10 + d);
        assert(all_digits(prefix)) by {
            assert forall|k: int| 0 <= k < prefix.len() implies is_digit(#[trigger] prefix[k]) by {
                if k < prefix.len() - 1 {
                    assert(prefix[k] == body.take(i - start)[k]);
                }
            }
        }
        match value.checked_mul(10) {
            None => {
                proof {
                    reject_overlong(body, prefix, i - start + 1, max as nat);
                }
                return None;
            },
            Some(v10) => {
                match v10.checked_add(d) {
                    None => {
                        proof {
                            reject_overlong(body, prefix, i - start + 1, max as nat);
                        }
                        return None;
                    },
                    Some(v) => {
                        if v > max {
                            proof {
                                reject_overlong(body, prefix, i - start + 1, max as nat);
                            }
                            return None;
                        }
                        value = v;
                    },
                }
            },
        }
        i = i + 1;
    }
    assert(body.take(i - start) == body);
    Some(value)
}

/// A digit prefix whose value is already above `max` rules out the whole
/// string.
proof fn reject_overlong(body: Seq<char>, prefix: Seq<char>, k: int, max: nat)
    requires
        0 < k <= body.len(),
        prefix == body.take(k),
        all_digits(prefix),
        digits_value(prefix) > max,
    ensures
        !(all_digits(body) && digits_value(body) <= max),
{
    if all_digits(body) {
        lemma_digits_value_prefix(body, k);
    }
}

/// Parses an unsigned decimal integer no greater than `max` from a string.
pub fn parse_unsigned_str(s: &str, max: u64) -> (r: Option<u64>)
    ensures
        match parse_unsigned(s@, max as nat) {
            Some(v) => r == Some(v as u64),
            None => r is None,
        },
{
    let v = chars_of(s);
    parse_unsigned_chars(&v, max)
}


/// Position of the first occurrence of `c` in `s` at or after `i`.
pub open spec fn find_from(s: Seq<char>, c: char, i: nat) -> Option<nat>
    decreases s.len() - i,
{
    if i >= s.len() {
        None
    } else if s[i as int] == c {
        Some(i)
    } else {
        find_from(s, c, i + 1)
    }
}

/// A found position is in range and holds `c`, and nothing before it from
/// `i` on does.
pub proof fn lemma_find_from(s: Seq<char>, c: char, i: nat)
    ensures
        find_from(s, c, i) matches Some(k) ==> i <= k < s.len() && s[k as int] == c && (forall|
            j: int,
        | i <= j < k ==> s[j] != c),
        find_from(s, c, i) is None ==> forall|j: int| i <= j < s.len() ==> s[j] != c,
    decreases s.len() - i,
{
    if i < s.len() {
        lemma_find_from(s, c, i + 1);
    }
}

/// Position of the first occurrence of `c` in `s`.
pub open spec fn find_char(s: Seq<char>, c: char) -> Option<nat> {
    find_from(s, c, 0)
}

/// The part of `s` before the first `c` (all of `s` when there is none);
/// this is the first item of `split(c)`.
pub open spec fn before_char(s: Seq<char>, c: char) -> Seq<char> {
    match find_char(s, c) {
        Some(i) => s.take(i as int),
        None => s,
    }
}

/// `s` with every leading repetition of the non-empty pattern `p` removed,
/// as `trim_start_matches` does.
pub open spec fn trim_prefix_all(s: Seq<char>, p: Seq<char>) -> Seq<char>
    decreases s.len(),
{
    if p.len() > 0 && has_prefix(s, p) {
        trim_prefix_all(s.skip(p.len() as int), p)
    } else {
        s
    }
}

/// First occurrence of `c` in `s`, as an index.
pub fn chars_find(s: &[char], c: char) -> (r: Option<usize>)
    ensures
        match find_char(s@, c) {
            Some(i) => r == Some(i as usize),
            None => r is None,
        },
{
    let mut i: usize = 0;
    while i < s.len()
        invariant
            i <= s.len(),
            find_char(s@, c) == find_from(s@, c, i as nat),
        decreases s.len() - i,
    {
        if s[i] == c {
            return Some(i);
        }
        i = i + 1;
    }
    None
}

/// The characters of `s` from `start` up to (not including) `end`.
pub fn chars_slice(s: &[char], start: usize, end: usize) -> (r: Vec<char>)
    requires
        start <= end <= s.len(),
    ensures
        r@ == s@.subrange(start as int, end as int),
{
    let mut r: Vec<char> = Vec::new();
    let mut i: usize = start;
    while i < end
        invariant
            start <= i <= end <= s.len(),
            r@ == s@.subrange(start as int, i as int),
        decreases end - i,
    {
        assert(s@.subrange(start as int, i + 1) == s@.subrange(start as int, i as int).push(
            s@[i as int],
        ));
        r.push(s[i]);
        i = i + 1;
    }
    r
}

/// The part of `s` before the first `c`.
pub fn chars_before(s: &[char], c: char) -> (r: Vec<char>)
    ensures
        r@ == before_char(s@, c),
{
    proof {
        lemma_find_from(s@, c, 0);
    }
    match chars_find(s, c) {
        Some(i) => chars_slice(s, 0, i),
        None => chars_slice(s, 0, s.len()),
    }
}

/// `s` with every leading repetition of the non-empty pattern `p` removed.
pub fn chars_trim_prefix_all(s: &[char], p: &[char]) -> (r: Vec<char>)
    requires
        p.len() > 0,
    ensures
        r@ == trim_prefix_all(s@, p@),
{
    let mut start: usize = 0;
    assert(s@.skip(0) == s@);
    while start <= s.len() && p.len() <= s.len() - start && chars_occur_at(s, p, start)
        invariant
            start <= s.len(),
            p.len() > 0,
            trim_prefix_all(s@, p@) == trim_prefix_all(s@.skip(start as int), p@),
        decreases s.len() - start,
    {
        assert(has_prefix(s@.skip(start as int), p@)) by {
            assert(s@.skip(start as int).subrange(0, p@.len() as int) == s@.subrange(
                start as int,
                start + p@.len(),
            ));
        }
        assert(s@.skip(start as int).skip(p@.len() as int) == s@.skip(start + p@.len()));
        start = start + p.len();
    }
    proof {
        if p.len() <= s.len() - start {
            assert(!occurs_at(s@, p@, start as int));
            assert(s@.skip(start as int).subrange(0, p@.len() as int) == s@.subrange(
                start as int,
                start + p@.len(),
            ));
        }
    }
    chars_slice(s, start, s.len())
}

/// A string made of the characters of `v`, with `t` appended.
pub fn append_chars(s: &mut String, v: &[char])
    ensures
        final(s)@ == old(s)@ + v@,
{
    let mut i: usize = 0;
    while i < v.len()
        invariant
            i <= v.len(),
            s@ == old(s)@ + v@.take(i as int),
        decreases v.len() - i,
    {
        assert(v@.take(i + 1) == v@.take(i as int).push(v@[i as int]));
        push_char(s, v[i]);
        i = i + 1;
    }
    assert(v@.take(v@.len() as int) == v@);
}


/// The characters of an optional string.
pub open spec fn opt_view(o: Option<String>) -> Option<Seq<char>> {
    match o {
        Some(s) => Some(s@),
        None => None,
    }
}

/// The characters of an optional string slice.
pub open spec fn opt_str_view(o: Option<&str>) -> Option<Seq<char>> {
    match o {
        Some(s) => Some(s@),
        None => None,
    }
}

/// A copy of an optional string.
pub fn clone_opt(o: &Option<String>) -> (r: Option<String>)
    ensures
        opt_view(r) == opt_view(*o),
{
    match o {
        Some(s) => Some(s.clone()),
        None => None,
    }
}

/// An owned copy of an optional string slice.
pub fn opt_to_string(o: Option<&str>) -> (r: Option<String>)
    ensures
        opt_view(r) == opt_str_view(o),
{
    match o {
        Some(s) => Some(to_string(s)),
        None => None,
    }
}

/// The parts of `s` between occurrences of `c`, in order (an empty `s` is
/// one empty part).
pub open spec fn split_char(s: Seq<char>, c: char) -> Seq<Seq<char>>
    decreases s.len(),
{
    match find_char(s, c) {
        Some(i) => if i < s.len() {
            seq![s.take(i as int)] + split_char(s.skip(i + 1 as int), c)
        } else {
            seq![s]
        },
        None => seq![s],
    }
}

/// The parts of `s` between occurrences of `c`, in order.
pub fn split_chars(s: &[char], c: char) -> (r: Vec<Vec<char>>)
    ensures
        r@.len() == split_char(s@, c).len(),
        forall|i: int| 0 <= i < r@.len() ==> (#[trigger] r@[i])@ == split_char(s@, c)[i],
    decreases s@.len(),
{
    proof {
        lemma_find_from(s@, c, 0);
    }
    match chars_find(s, c) {
        Some(i) => {
            let head = chars_slice(s, 0, i);
            let tail = chars_slice(s, i + 1, s.len());
            let rest = split_chars(tail.as_slice(), c);
            let mut r: Vec<Vec<char>> = Vec::new();
            r.push(head);
            let mut k: usize = 0;
            while k < rest.len()
                invariant
                    k <= rest@.len(),
                    r@.len() == k + 1,
                    r@[0]@ == s@.take(i as int),
                    rest@.len() == split_char(tail@, c).len(),
                    forall|j: int| 0 <= j < rest@.len() ==> (#[trigger] rest@[j])@ == split_char(tail@, c)[j],
                    forall|j: int| 1 <= j < k + 1 ==> (#[trigger] r@[j])@ == rest@[j - 1]@,
                decreases rest@.len() - k,
            {
                r.push(rest[k].clone());
                k = k + 1;
            }
            assert(tail@ == s@.skip(i + 1 as int));
            r
        },
        None => {
            let mut r: Vec<Vec<char>> = Vec::new();
            r.push(chars_slice(s, 0, s.len()));
            r
        },
    }
}

} // verus!
