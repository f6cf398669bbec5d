//! Helpers of request processing: query parameters, the client address
//! behind proxies, and the Prometheus text of the circuit breakers.

use vstd::prelude::*;
use crate::circuit_breaker::{CircuitBreakerSnapshot, state_number};
use crate::prometheus::{header, labeled_line, emit_header, push_labeled_line};
use crate::labels::{LabelMap, label_insert};
use crate::text::{decimal, u64_to_decimal, find_char, split_char, split_chars, chars_of, chars_find,
    chars_slice, string_from_chars, lemma_find_from, opt_view, to_string};

verus! {

/// Which counter of a snapshot a gauge shows: 0 the state, 1 the
/// failures, 2 the half-open successes.
pub open spec fn breaker_value(s: CircuitBreakerSnapshot, which: nat) -> nat {
    if which == 0 {
        state_number(s.state) as nat
    } else if which == 1 {
        s.failure_count as nat
    } else {
        s.success_count as nat
    }
}

/// The sample lines of one circuit breaker gauge, one per bucket in order.
pub open spec fn breaker_lines(name: Seq<char>, s: Seq<(String, CircuitBreakerSnapshot)>, which: nat) -> Seq<
    char,
>
    decreases s.len(),
{
    if s.len() == 0 {
        Seq::empty()
    } else {
        breaker_lines(name, s.drop_last(), which) + labeled_line(
            name,
            "bucket"@,
            s.last().0@,
            decimal(breaker_value(s.last().1, which)),
        )
    }
}

/// The Prometheus text of the circuit breakers: state, failure count and
/// half-open success count, each a gauge with one line per bucket.
pub open spec fn circuit_breaker_text(s: Seq<(String, CircuitBreakerSnapshot)>) -> Seq<char> {
    header(
        false,
        "circuit_breaker_state"@,
        "Circuit breaker state per bucket (0=closed, 1=open, 2=half-open)"@,
        "gauge"@,
    ) + breaker_lines("circuit_breaker_state"@, s, 0) + header(
        false,
        "circuit_breaker_failures"@,
        "Current consecutive failure count"@,
        "gauge"@,
    ) + breaker_lines("circuit_breaker_failures"@, s, 1) + header(
        false,
        "circuit_breaker_successes"@,
        "Success count in half-open state"@,
        "gauge"@,
    ) + breaker_lines("circuit_breaker_successes"@, s, 2)
}

/// Appends the lines of one circuit breaker gauge.
fn emit_breaker_lines(
    out: &mut String,
    name: &str,
    breakers: &Vec<(String, CircuitBreakerSnapshot)>,
    which: u8,
)
    requires
        which <= 2,
    ensures
        final(out)@ == old(out)@ + breaker_lines(name@, breakers@, which as nat),
{
    let mut i: usize = 0;
    while i < breakers.len()
        invariant
            i <= breakers@.len(),
            which <= 2,
            out@ == old(out)@ + breaker_lines(name@, breakers@.take(i as int), which as nat),
        decreases breakers@.len() - i,
    {
        let snap = breakers[i].1;
        let v: u64 = if which == 0 {
            snap.state.as_gauge() as u64
        } else if which == 1 {
            snap.failure_count
        } else {
            snap.success_count
        };
        let d = u64_to_decimal(v);
        push_labeled_line(out, name, "bucket", breakers[i].0.as_str(), d.as_str());
        assert(breakers@.take(i + 1).drop_last() =~= breakers@.take(i as int));
        i = i + 1;
    }
    assert(breakers@.take(breakers@.len() as int) =~= breakers@);
}

/// The Prometheus text of the circuit breakers of the buckets, in order.
pub fn export_circuit_breaker_metrics(breakers: &Vec<(String, CircuitBreakerSnapshot)>) -> (r: String)
    ensures
        r@ == circuit_breaker_text(breakers@),
{
    let mut out = String::new();
    emit_header(
        &mut out,
        false,
        "circuit_breaker_state",
        "Circuit breaker state per bucket (0=closed, 1=open, 2=half-open)",
        "gauge",
    );
    emit_breaker_lines(&mut out, "circuit_breaker_state", breakers, 0);
    emit_header(&mut out, false, "circuit_breaker_failures", "Current consecutive failure count", "gauge");
    emit_breaker_lines(&mut out, "circuit_breaker_failures", breakers, 1);
    emit_header(&mut out, false, "circuit_breaker_successes", "Success count in half-open state", "gauge");
    emit_breaker_lines(&mut out, "circuit_breaker_successes", breakers, 2);
    assert(out@ =~= circuit_breaker_text(breakers@));
    out
}

/// What `urlencoding::decode` gives for a text: the percent-decoded text,
/// or `None` when the decoded bytes are not UTF-8.
pub uninterp spec fn url_decoded(s: Seq<char>) -> Option<Seq<char>>;

/// `urlencoding::decode`, owned: the percent-decoded text, `None` when
/// the decoded bytes are not UTF-8. A text without `%` comes back
/// unchanged (the crate's `decode_binary` borrows its input when it finds
/// no `%`), and `+` is kept as is.
#[verifier::external_body]
fn url_decode(s: &str) -> (r: Option<String>)
    ensures
        opt_view(r) == url_decoded(s@),
        !s@.contains('%') ==> opt_view(r) == Some(s@),
{
    match urlencoding::decode(s) {
        Ok(d) => Some(d.into_owned()),
        Err(_) => None,
    }
}

/// The value of a query parameter as kept: decoded, or empty when the
/// decoding is not UTF-8.
pub open spec fn param_value(raw: Seq<char>) -> Seq<char> {
    match url_decoded(raw) {
        Some(v) => v,
        None => Seq::empty(),
    }
}

/// The parameters after reading one `key=value` part of a query (a part
/// without `=` is skipped; a repeated key takes the later value).
pub open spec fn apply_param(params: Seq<(Seq<char>, Seq<char>)>, part: Seq<char>) -> Seq<(Seq<char>, Seq<char>)> {
    match find_char(part, '=') {
        Some(i) => label_insert(params, part.take(i as int), param_value(part.skip(i + 1 as int))),
        None => params,
    }
}

/// The parameters of the parts of a query, read in order.
pub open spec fn apply_params(parts: Seq<Seq<char>>) -> Seq<(Seq<char>, Seq<char>)>
    decreases parts.len(),
{
    if parts.len() == 0 {
        Seq::empty()
    } else {
        apply_param(apply_params(parts.drop_last()), parts.last())
    }
}

/// The parameters of a query string (none without one).
pub open spec fn query_params_of(query: Option<Seq<char>>) -> Seq<(Seq<char>, Seq<char>)> {
    match query {
        Some(q) => apply_params(split_char(q, '&')),
        None => Seq::empty(),
    }
}

/// The text of parameters kept as strings.
pub open spec fn params_view(s: Seq<(Seq<char>, String)>) -> Seq<(Seq<char>, Seq<char>)> {
    s.map_values(|e: (Seq<char>, String)| (e.0, e.1@))
}

/// Inserting a value and then taking the text is taking the text and then
/// inserting the value's text.
proof fn lemma_params_view_insert(s: Seq<(Seq<char>, String)>, k: Seq<char>, v: String)
    ensures
        params_view(label_insert(s, k, v)) == label_insert(params_view(s), k, v@),
{
    lemma_params_view_index(s, k);
    crate::labels::lemma_label_index(s, k);
    match crate::labels::label_index(s, k) {
        Some(i) => {
            assert(params_view(s.update(i, (k, v))) =~= params_view(s).update(i, (k, v@)));
        },
        None => {
            assert(params_view(s.push((k, v))) =~= params_view(s).push((k, v@)));
        },
    }
}

/// Positions of labels do not depend on the values.
proof fn lemma_params_view_index(s: Seq<(Seq<char>, String)>, k: Seq<char>)
    ensures
        crate::labels::label_index(params_view(s), k) == crate::labels::label_index(s, k),
    decreases s.len(),
{
    if s.len() > 0 {
        lemma_params_view_index(s.drop_last(), k);
        assert(params_view(s).drop_last() =~= params_view(s.drop_last()));
    }
}

/// The parameters of a query string: the `&`-separated parts with an `=`,
/// keyed by the text before the first `=`, valued by the decoded text
/// after it (empty when not UTF-8); a repeated key keeps its first place
/// and takes the later value.
pub fn parse_query_params(query: Option<&str>) -> (r: LabelMap<String>)
    ensures
        params_view(r@) == query_params_of(opt_str(query)),
{
    let mut params: LabelMap<String> = LabelMap::new();
    match query {
        None => {
            assert(params_view(params@) =~= Seq::<(Seq<char>, Seq<char>)>::empty());
        },
        Some(q) => {
            let chars = chars_of(q);
            let parts = split_chars(chars.as_slice(), '&');
            let ghost sp = split_char(q@, '&');
            assert(params_view(params@) =~= apply_params(sp.take(0)));
            let mut i: usize = 0;
            while i < parts.len()
                invariant
                    i <= parts@.len(),
                    parts@.len() == sp.len(),
                    forall|j: int| 0 <= j < parts@.len() ==> (#[trigger] parts@[j])@ == sp[j],
                    params_view(params@) == apply_params(sp.take(i as int)),
                decreases parts@.len() - i,
            {
                assert(sp.take(i + 1).drop_last() =~= sp.take(i as int));
                let part = parts[i].as_slice();
                proof {
                    lemma_find_from(part@, '=', 0);
                }
                match chars_find(part, '=') {
                    Some(e) => {
                        let key = string_from_chars(chars_slice(part, 0, e).as_slice());
                        let raw = string_from_chars(chars_slice(part, e + 1, part.len()).as_slice());
                        let value = match url_decode(raw.as_str()) {
                            Some(v) => v,
                            None => String::new(),
                        };
                        proof {
                            lemma_params_view_insert(params@, key@, value);
                        }
                        params.insert(key.as_str(), value);
                    },
                    None => {},
                }
                i = i + 1;
            }
            assert(sp.take(sp.len() as int) =~= sp);
        },
    }
    params
}

/// The text of an optional string slice.
pub open spec fn opt_str(o: Option<&str>) -> Option<Seq<char>> {
    match o {
        Some(s) => Some(s@),
        None => None,
    }
}

/// The characters with the Unicode `White_Space` property, which
/// `str::trim` removes: U+0009 to U+000D, space, U+0085, U+00A0, U+1680,
/// U+2000 to U+200A, U+2028, U+2029, U+202F, U+205F and U+3000.
pub open spec fn white_space(c: char) -> bool {
    let u = c as u32;
    ||| 0x9 <= u <= 0xd
    ||| u == 0x20
    ||| u == 0x85
    ||| u == 0xa0
    ||| u == 0x1680
    ||| 0x2000 <= u <= 0x200a
    ||| u == 0x2028
    ||| u == 0x2029
    ||| u == 0x202f
    ||| u == 0x205f
    ||| u == 0x3000
}

/// `s` without leading white space.
pub open spec fn trim_start_ws(s: Seq<char>) -> Seq<char>
    decreases s.len(),
{
    if s.len() > 0 && white_space(s[0]) {
        trim_start_ws(s.drop_first())
    } else {
        s
    }
}

/// `s` without trailing white space.
pub open spec fn trim_end_ws(s: Seq<char>) -> Seq<char>
    decreases s.len(),
{
    if s.len() > 0 && white_space(s.last()) {
        trim_end_ws(s.drop_last())
    } else {
        s
    }
}

/// `s` without leading and trailing white space, as `str::trim` gives it.
pub open spec fn trimmed(s: Seq<char>) -> Seq<char> {
    trim_end_ws(trim_start_ws(s))
}

/// Whether a character has the Unicode `White_Space` property.
fn is_white_space(c: char) -> (r: bool)
    ensures
        r == white_space(c),
{
    let u = c as u32;
    (0x9 <= u && u <= 0xd) || u == 0x20 || u == 0x85 || u == 0xa0 || u == 0x1680 || (0x2000 <= u && u
        <= 0x200a) || u == 0x2028 || u == 0x2029 || u == 0x202f || u == 0x205f || u == 0x3000
}

/// `s` without leading and trailing white space.
fn trim_chars(s: &[char]) -> (r: Vec<char>)
    ensures
        r@ == trimmed(s@),
{
    let mut start: usize = 0;
    assert(s@.skip(0) =~= s@);
    while start < s.len() && is_white_space(s[start])
        invariant
            start <= s@.len(),
            trim_start_ws(s@) == trim_start_ws(s@.skip(start as int)),
        decreases s@.len() - start,
    {
        assert(s@.skip(start as int).drop_first() =~= s@.skip(start + 1));
        start = start + 1;
    }
    assert(trim_start_ws(s@) == s@.skip(start as int));
    let mut end: usize = s.len();
    assert(s@.skip(start as int) =~= s@.subrange(start as int, end as int));
    while end > start && is_white_space(s[end - 1])
        invariant
            start <= end <= s@.len(),
            trimmed(s@) == trim_end_ws(s@.subrange(start as int, end as int)),
        decreases end,
    {
        assert(s@.subrange(start as int, end as int).drop_last() =~= s@.subrange(start as int, end - 1));
        end = end - 1;
    }
    chars_slice(s, start, end)
}

/// The client address: the first entry of an `X-Forwarded-For` header,
/// trimmed, when there is one; else the peer address; else `unknown`.
pub open spec fn client_ip_of(forwarded_for: Option<Seq<char>>, peer: Option<Seq<char>>) -> Seq<char> {
    match forwarded_for {
        Some(f) => trimmed(split_char(f, ',')[0]),
        None => match peer {
            Some(p) => p,
            None => "unknown"@,
        },
    }
}

/// The client address, aware of proxies in front.
pub fn client_ip(forwarded_for: Option<&str>, peer: Option<String>) -> (r: String)
    ensures
        r@ == client_ip_of(opt_str(forwarded_for), opt_view(peer)),
{
    match forwarded_for {
        Some(f) => {
            let chars = chars_of(f);
            let parts = split_chars(chars.as_slice(), ',');
            proof {
                reveal_with_fuel(split_char, 2);
                lemma_find_from(f@, ',', 0);
            }
            assert(parts@.len() > 0);
            let trimmed_first = trim_chars(parts[0].as_slice());
            string_from_chars(trimmed_first.as_slice())
        },
        None => match peer {
            Some(p) => p,
            None => to_string("unknown"),
        },
    }
}

} // verus!
