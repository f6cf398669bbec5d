//! Building blocks of the Prometheus text exposition format: HELP and
//! TYPE headers, sample lines, labelled sample lines and quantile
//! summaries over latency samples.

use vstd::prelude::*;
use vstd::relations::{sorted_by, total_ordering};
use crate::labels::LabelMap;
use crate::text::{decimal, digit_char, find_char, u64_to_decimal, push_str, push_char, chars_of,
    chars_find, chars_slice, append_chars, lemma_find_from};

verus! {

/// Order on samples.
pub open spec fn sample_leq() -> spec_fn(u64, u64) -> bool {
    |a: u64, b: u64| a <= b
}

/// The samples in ascending order.
pub open spec fn sorted_samples(s: Seq<u64>) -> Seq<u64> {
    s.sort_by(sample_leq())
}

/// Whether `s` is in ascending order.
pub open spec fn ascending(s: Seq<u64>) -> bool {
    forall|i: int, j: int| 0 <= i < j < s.len() ==> s[i] <= s[j]
}

/// The order on samples is a total order.
pub proof fn lemma_sample_leq_total()
    ensures
        total_ordering(sample_leq()),
{
    let leq = sample_leq();
    assert(vstd::relations::reflexive(leq)) by {
        assert forall|x: u64| #[trigger] leq(x, x) by {}
    }
    assert(vstd::relations::antisymmetric(leq)) by {
        assert forall|x: u64, y: u64| #[trigger] leq(x, y) && #[trigger] leq(y, x) implies x == y by {}
    }
    assert(vstd::relations::transitive(leq)) by {
        assert forall|x: u64, y: u64, z: u64| #[trigger] leq(x, y) && #[trigger] leq(y, z) implies leq(
            x,
            z,
        ) by {}
    }
    assert(vstd::relations::strongly_connected(leq)) by {
        assert forall|x: u64, y: u64| #[trigger] leq(x, y) || #[trigger] leq(y, x) by {}
    }
}

/// An ascending sequence with the same elements as `s` is the sorted `s`.
pub proof fn lemma_ascending_is_sorted(r: Seq<u64>, s: Seq<u64>)
    requires
        ascending(r),
        r.to_multiset() == s.to_multiset(),
    ensures
        r == sorted_samples(s),
{
    let leq = sample_leq();
    lemma_sample_leq_total();
    s.lemma_sort_by_ensures(leq);
    assert(sorted_by(r, leq)) by {
        assert forall|i: int, j: int| 0 <= i < j < r.len() implies #[trigger] leq(r[i], r[j]) by {}
    }
    vstd::seq_lib::lemma_sorted_unique(r, s.sort_by(leq), leq);
}

/// The samples of `v` in ascending order.
pub fn sorted_copy(v: &Vec<u64>) -> (r: Vec<u64>)
    ensures
        r@ == sorted_samples(v@),
{
    broadcast use vstd::seq_lib::group_to_multiset_ensures;

    let mut r: Vec<u64> = Vec::new();
    let mut i: usize = 0;
    while i < v.len()
        invariant
            i <= v.len(),
            ascending(r@),
            r@.to_multiset() == v@.take(i as int).to_multiset(),
        decreases v.len() - i,
    {
        let x = v[i];
        // position of the first element greater than x
        let mut p: usize = 0;
        while p < r.len() && r[p] <= x
            invariant
                p <= r.len(),
                forall|k: int| 0 <= k < p ==> r@[k] <= x,
            decreases r.len() - p,
        {
            p = p + 1;
        }
        let ghost before = r@;
        r.insert(p, x);
        assert(r@ =~= before.take(p as int) + seq![x] + before.skip(p as int));
        assert(before =~= before.take(p as int) + before.skip(p as int));
        proof {
            vstd::seq_lib::lemma_multiset_commutative(before.take(p as int), seq![x]);
            vstd::seq_lib::lemma_multiset_commutative(
                before.take(p as int) + seq![x],
                before.skip(p as int),
            );
            vstd::seq_lib::lemma_multiset_commutative(before.take(p as int), before.skip(p as int));
            vstd::seq_lib::lemma_multiset_commutative(v@.take(i as int), seq![x]);
            assert(v@.take(i + 1) =~= v@.take(i as int) + seq![x]);
            assert forall|a: int, b: int| 0 <= a < b < r@.len() implies r@[a] <= r@[b] by {
                if a < p && b > p {
                    assert(r@[b] == before[b - 1]);
                } else if a == p {
                    assert(r@[b] == before[b - 1]);
                    assert(p < before.len() ==> before[p as int] > x);
                    assert(before[p as int] <= before[b - 1] || b - 1 == p);
                } else if b == p {
                    assert(r@[a] == before[a]);
                } else if a > p {
                    assert(r@[a] == before[a - 1] && r@[b] == before[b - 1]);
                }
            }
        }
        i = i + 1;
    }
    proof {
        assert(v@.take(v@.len() as int) =~= v@);
        lemma_ascending_is_sorted(r@, v@);
    }
    r
}

/// The sample at a percentile of the sorted samples: index
/// `len * pct / 100`, minus one (but not below 0); 0 without samples.
pub open spec fn percentile(sorted: Seq<u64>, pct: nat) -> u64 {
    if sorted.len() == 0 {
        0
    } else {
        let idx = sorted.len() * pct / 100;
        sorted[if idx == 0 { 0 } else { idx - 1 }]
    }
}

/// Law: on sorted samples a higher percentile is never smaller, and a
/// percentile of some samples is one of them.
pub proof fn law_percentiles_ordered(samples: Seq<u64>, lo: nat, hi: nat)
    requires
        lo <= hi <= 100,
    ensures
        percentile(sorted_samples(samples), lo) <= percentile(sorted_samples(samples), hi),
        samples.len() > 0 ==> samples.contains(percentile(sorted_samples(samples), hi)),
{
    let leq = sample_leq();
    lemma_sample_leq_total();
    samples.lemma_sort_by_ensures(leq);
    let s = sorted_samples(samples);
    assert(s.len() == samples.len()) by {
        broadcast use vstd::seq_lib::group_to_multiset_ensures;
        assert(s.to_multiset().len() == samples.to_multiset().len());
    }
    if s.len() > 0 {
        let n = s.len();
        let a = n * lo / 100;
        let b = n * hi / 100;
        assert(a <= b) by (nonlinear_arith)
            requires
                lo <= hi,
                a == n * lo / 100,
                b == n * hi / 100,
        ;
        assert(b <= n) by (nonlinear_arith)
            requires
                hi <= 100,
                b == n * hi / 100,
        ;
        let ia: int = if a == 0 { 0 } else { a - 1 };
        let ib: int = if b == 0 { 0 } else { b - 1 };
        assert(0 <= ia <= ib < n);
        if ia < ib {
            assert(leq(s[ia], s[ib]));
        }
        assert(s.contains(s[ib]));
        assert(!samples.contains(s[ib]) ==> !s.contains(s[ib]));
    }
}

/// The sample at a percentile of sorted samples.
pub fn percentile_of(sorted: &Vec<u64>, pct: u64) -> (r: u64)
    requires
        pct <= 100,
    ensures
        r == percentile(sorted@, pct as nat),
{
    let n = sorted.len();
    if n == 0 {
        return 0;
    }
    assert((n as u128) * (pct as u128) <= 0xffff_ffff_ffff_ffff * 100) by (nonlinear_arith)
        requires
            pct <= 100,
            n <= 0xffff_ffff_ffff_ffff,
    ;
    let prod: u128 = (n as u128) * (pct as u128);
    let idx128: u128 = prod / 100;
    assert(idx128 <= n) by (nonlinear_arith)
        requires
            prod == n * pct,
            idx128 == prod / 100,
            pct <= 100,
    ;
    let idx = idx128 as usize;
    if idx == 0 {
        sorted[0]
    } else {
        sorted[idx - 1]
    }
}

/// Three decimal digits of `n` (below 1000), with leading zeros.
pub open spec fn pad3(n: nat) -> Seq<char> {
    seq![digit_char(n / 100), digit_char((n / 10) % 10), digit_char(n % 10)]
}

/// A microsecond value in milliseconds with three decimals (exact).
pub open spec fn ms_text(us: u64) -> Seq<char> {
    decimal((us / 1000) as nat) + "."@ + pad3((us % 1000) as nat)
}

/// Below this many microseconds (2^53) every microsecond value is exact in
/// a double, and so is each half millisecond in milliseconds.
pub const EXACT_US_BOUND: u64 = 9007199254740992;

/// 2^52 * 2000: a value `n / 2000` at least 2^52 and below 2^53 has a
/// whole significand `n / 2000` in a double.
pub const SCALED_LOW: u128 = 9007199254740992000;

/// `n` doubled until it reaches `SCALED_LOW` (at most `fuel` times).
pub open spec fn scaled(n: nat, fuel: nat) -> nat
    decreases fuel,
{
    if fuel == 0 || n >= SCALED_LOW {
        n
    } else {
        scaled(2 * n, (fuel - 1) as nat)
    }
}

/// Whether `(k + 0.5)` milliseconds, written in seconds with three
/// decimals from the double nearest to `(2k + 1) / 2000`, shows `k + 1`
/// thousandths. The double is `n / 2000` rounded to a whole `n / 2000`
/// scaled by a power of two (`n = (2k + 1) * 2^e`, scaled into the range
/// of a significand), to nearest with ties to even; the printing then
/// rounds the double's exact value half to even. So the value shows
/// `k + 1` when the double lies above it, or equals it with `k` odd.
pub open spec fn half_ms_rounds_up(k: nat) -> bool {
    let n = scaled(2 * k + 1, 64);
    let m = n / 2000;
    let rem = n % 2000;
    if rem == 0 {
        k % 2 == 1
    } else {
        rem > 1000 || (rem == 1000 && m % 2 == 1)
    }
}

/// The thousandths of a second shown for a microsecond value: the nearest
/// millisecond; a value on a half millisecond (below `EXACT_US_BOUND`)
/// goes the way the double of its value in seconds goes, otherwise up.
pub open spec fn shown_ms(us: u64) -> nat {
    if us % 1000 == 500 && us < EXACT_US_BOUND {
        (us / 1000) as nat + if half_ms_rounds_up((us / 1000) as nat) {
            1nat
        } else {
            0nat
        }
    } else {
        (us as nat + 500) / 1000
    }
}

/// A microsecond value in seconds with three decimals, as the double
/// `us / 1000 / 1000` prints with three decimals (for values below
/// `EXACT_US_BOUND`).
pub open spec fn seconds_text(us: u64) -> Seq<char> {
    let ms = shown_ms(us);
    decimal(ms / 1000) + "."@ + pad3(ms % 1000)
}

/// The HELP and TYPE lines of a metric; every metric but the first is
/// preceded by an empty line.
pub open spec fn header(first: bool, name: Seq<char>, help: Seq<char>, ty: Seq<char>) -> Seq<char> {
    (if first { Seq::<char>::empty() } else { "\n"@ }) + "# HELP "@ + name + " "@ + help + "\n"@
        + "# TYPE "@ + name + " "@ + ty + "\n"@
}

/// One unlabelled sample line.
pub open spec fn scalar_line(name: Seq<char>, v: u64) -> Seq<char> {
    name + " "@ + decimal(v as nat) + "\n"@
}

/// A whole unlabelled metric.
pub open spec fn scalar_metric(
    first: bool,
    name: Seq<char>,
    help: Seq<char>,
    ty: Seq<char>,
    v: u64,
) -> Seq<char> {
    header(first, name, help, ty) + scalar_line(name, v)
}

/// One sample line with one label.
pub open spec fn labeled_line(name: Seq<char>, label: Seq<char>, key: Seq<char>, v: Seq<char>) -> Seq<char> {
    name + "{"@ + label + "=\""@ + key + "\"} "@ + v + "\n"@
}

/// The lines of a labelled counter, one per entry in order.
pub open spec fn labeled_lines(name: Seq<char>, label: Seq<char>, s: Seq<(Seq<char>, u64)>) -> Seq<char>
    decreases s.len(),
{
    if s.len() == 0 {
        Seq::empty()
    } else {
        labeled_lines(name, label, s.drop_last()) + labeled_line(
            name,
            label,
            s.last().0,
            decimal(s.last().1 as nat),
        )
    }
}

/// `1` for true, `0` for false.
pub open spec fn flag_text(b: bool) -> Seq<char> {
    if b {
        "1"@
    } else {
        "0"@
    }
}

/// The lines of a labelled health gauge, one per entry in order.
pub open spec fn flag_lines(name: Seq<char>, label: Seq<char>, s: Seq<(Seq<char>, bool)>) -> Seq<char>
    decreases s.len(),
{
    if s.len() == 0 {
        Seq::empty()
    } else {
        flag_lines(name, label, s.drop_last()) + labeled_line(
            name,
            label,
            s.last().0,
            flag_text(s.last().1),
        )
    }
}

/// A key split at its first `:`, if it has one.
pub open spec fn split_colon(k: Seq<char>) -> Option<(Seq<char>, Seq<char>)> {
    match find_char(k, ':') {
        Some(i) => Some((k.take(i as int), k.skip(i + 1 as int))),
        None => None,
    }
}

/// One sample line with two labels.
pub open spec fn pair_line(
    name: Seq<char>,
    l1: Seq<char>,
    v1: Seq<char>,
    l2: Seq<char>,
    v2: Seq<char>,
    v: Seq<char>,
) -> Seq<char> {
    name + "{"@ + l1 + "=\""@ + v1 + "\","@ + l2 + "=\""@ + v2 + "\"} "@ + v + "\n"@
}

/// The lines of a counter keyed `a:b`, one per entry whose key has a `:`.
pub open spec fn pair_lines(
    name: Seq<char>,
    l1: Seq<char>,
    l2: Seq<char>,
    s: Seq<(Seq<char>, u64)>,
) -> Seq<char>
    decreases s.len(),
{
    if s.len() == 0 {
        Seq::empty()
    } else {
        pair_lines(name, l1, l2, s.drop_last()) + match split_colon(s.last().0) {
            Some((a, b)) => pair_line(name, l1, a, l2, b, decimal(s.last().1 as nat)),
            None => Seq::empty(),
        }
    }
}

/// The lines of a health gauge keyed `bucket:replica`.
pub open spec fn pair_flag_lines(
    name: Seq<char>,
    l1: Seq<char>,
    l2: Seq<char>,
    s: Seq<(Seq<char>, bool)>,
) -> Seq<char>
    decreases s.len(),
{
    if s.len() == 0 {
        Seq::empty()
    } else {
        pair_flag_lines(name, l1, l2, s.drop_last()) + match split_colon(s.last().0) {
            Some((a, b)) => pair_line(name, l1, a, l2, b, flag_text(s.last().1)),
            None => Seq::empty(),
        }
    }
}

/// A key split at `:` into exactly three parts, if it has exactly two
/// colons.
pub open spec fn split_three(k: Seq<char>) -> Option<(Seq<char>, Seq<char>, Seq<char>)> {
    match split_colon(k) {
        Some((a, rest)) => match split_colon(rest) {
            Some((b, c)) => if find_char(c, ':') is None {
                Some((a, b, c))
            } else {
                None
            },
            None => None,
        },
        None => None,
    }
}

/// The lines of the failover counter, keyed `bucket:from:to`.
pub open spec fn failover_lines(s: Seq<(Seq<char>, u64)>) -> Seq<char>
    decreases s.len(),
{
    if s.len() == 0 {
        Seq::empty()
    } else {
        failover_lines(s.drop_last()) + match split_three(s.last().0) {
            Some((a, b, c)) => "replica_failovers_total{bucket=\""@ + a + "\",from=\""@ + b
                + "\",to=\""@ + c + "\"} "@ + decimal(s.last().1 as nat) + "\n"@,
            None => Seq::empty(),
        }
    }
}

/// One quantile line of a summary.
pub open spec fn quantile_line(name: Seq<char>, q: Seq<char>, v: Seq<char>) -> Seq<char> {
    name + "{quantile=\""@ + q + "\"} "@ + v + "\n"@
}

/// The request duration summary: quantiles 0.5, 0.9, 0.95 and 0.99 in
/// seconds.
pub open spec fn duration_summary(samples: Seq<u64>) -> Seq<char> {
    let s = sorted_samples(samples);
    let n = "http_request_duration_seconds"@;
    quantile_line(n, "0.5"@, seconds_text(percentile(s, 50))) + quantile_line(
        n,
        "0.9"@,
        seconds_text(percentile(s, 90)),
    ) + quantile_line(n, "0.95"@, seconds_text(percentile(s, 95))) + quantile_line(
        n,
        "0.99"@,
        seconds_text(percentile(s, 99)),
    )
}

/// One quantile line of the per-replica duration summary.
pub open spec fn replica_quantile_line(a: Seq<char>, b: Seq<char>, q: Seq<char>, v: Seq<char>) -> Seq<
    char,
> {
    "replica_request_duration_seconds{bucket=\""@ + a + "\",replica=\""@ + b + "\",quantile=\""@ + q
        + "\"} "@ + v + "\n"@
}

/// The four quantile lines of one replica.
pub open spec fn replica_summary_lines(a: Seq<char>, b: Seq<char>, samples: Seq<u64>) -> Seq<char> {
    let s = sorted_samples(samples);
    replica_quantile_line(a, b, "0.5"@, seconds_text(percentile(s, 50))) + replica_quantile_line(
        a,
        b,
        "0.9"@,
        seconds_text(percentile(s, 90)),
    ) + replica_quantile_line(a, b, "0.95"@, seconds_text(percentile(s, 95)))
        + replica_quantile_line(a, b, "0.99"@, seconds_text(percentile(s, 99)))
}

/// The per-replica duration summaries, one group per key with a `:`.
pub open spec fn replica_summaries(s: Seq<(Seq<char>, Vec<u64>)>) -> Seq<char>
    decreases s.len(),
{
    if s.len() == 0 {
        Seq::empty()
    } else {
        replica_summaries(s.drop_last()) + match split_colon(s.last().0) {
            Some((a, b)) => replica_summary_lines(a, b, s.last().1@),
            None => Seq::empty(),
        }
    }
}

/// A summary in milliseconds with quantiles 0.5, 0.95 and 0.99, empty
/// when there are no samples.
pub open spec fn ms_summary(name: Seq<char>, samples: Seq<u64>) -> Seq<char> {
    if samples.len() == 0 {
        Seq::empty()
    } else {
        let s = sorted_samples(samples);
        quantile_line(name, "0.5"@, ms_text(percentile(s, 50))) + quantile_line(
            name,
            "0.95"@,
            ms_text(percentile(s, 95)),
        ) + quantile_line(name, "0.99"@, ms_text(percentile(s, 99)))
    }
}

/// The character of a decimal digit.
fn digit(d: u64) -> (c: char)
    requires
        d < 10,
    ensures
        c == digit_char(d as nat),
{
    let c: char = ((('0' as u32) + (d as u32)) as u8) as char;
    assert((('0' as u32) + (d as u32)) < 256);
    c
}

/// Appends the three-digit rendering of `n` (below 1000).
fn push_pad3(out: &mut String, n: u64)
    requires
        n < 1000,
    ensures
        final(out)@ == old(out)@ + pad3(n as nat),
{
    push_char(out, digit(n / 100));
    push_char(out, digit((n / 10) % 10));
    push_char(out, digit(n % 10));
    assert(final(out)@ =~= old(out)@ + pad3(n as nat));
}

/// Appends a microsecond value as milliseconds with three decimals.
pub fn push_ms(out: &mut String, us: u64)
    ensures
        final(out)@ == old(out)@ + ms_text(us),
{
    let whole = u64_to_decimal(us / 1000);
    push_str(out, whole.as_str());
    push_str(out, ".");
    push_pad3(out, us % 1000);
    assert(final(out)@ =~= old(out)@ + ms_text(us));
}

/// Whether a half millisecond `k + 0.5` shows `k + 1` thousandths (see
/// `half_ms_rounds_up`).
fn half_ms_up(k: u64) -> (r: bool)
    requires
        k < EXACT_US_BOUND,
    ensures
        r == half_ms_rounds_up(k as nat),
{
    let mut n: u128 = 2 * (k as u128) + 1;
    let mut fuel: u64 = 64;
    while fuel > 0 && n < SCALED_LOW
        invariant
            n < 2 * SCALED_LOW,
            scaled(n as nat, fuel as nat) == scaled(2 * k as nat + 1, 64),
        decreases fuel,
    {
        n = 2 * n;
        fuel = fuel - 1;
    }
    let m = n / 2000;
    let rem = n % 2000;
    if rem == 0 {
        k % 2 == 1
    } else {
        rem > 1000 || (rem == 1000 && m % 2 == 1)
    }
}

/// Appends a microsecond value as seconds with three decimals (see
/// `seconds_text`).
pub fn push_seconds(out: &mut String, us: u64)
    ensures
        final(out)@ == old(out)@ + seconds_text(us),
{
    let ms: u64 = if us % 1000 == 500 && us < EXACT_US_BOUND {
        us / 1000 + if half_ms_up(us / 1000) {
            1u64
        } else {
            0u64
        }
    } else {
        us / 1000 + (if us % 1000 >= 500 {
            1u64
        } else {
            0u64
        })
    };
    assert(ms == shown_ms(us));
    let whole = u64_to_decimal(ms / 1000);
    push_str(out, whole.as_str());
    push_str(out, ".");
    push_pad3(out, ms % 1000);
    assert(final(out)@ =~= old(out)@ + seconds_text(us));
}

/// Appends the HELP and TYPE lines of a metric, preceded by an empty line
/// unless it is the first.
pub fn emit_header(out: &mut String, first: bool, name: &str, help: &str, ty: &str)
    ensures
        final(out)@ == old(out)@ + header(first, name@, help@, ty@),
{
    if !first {
        push_str(out, "\n");
    }
    push_str(out, "# HELP ");
    push_str(out, name);
    push_str(out, " ");
    push_str(out, help);
    push_str(out, "\n");
    push_str(out, "# TYPE ");
    push_str(out, name);
    push_str(out, " ");
    push_str(out, ty);
    push_str(out, "\n");
    assert(final(out)@ =~= old(out)@ + header(first, name@, help@, ty@));
}

/// Appends one unlabelled sample line.
pub fn emit_scalar(out: &mut String, name: &str, v: u64)
    ensures
        final(out)@ == old(out)@ + scalar_line(name@, v),
{
    push_str(out, name);
    push_str(out, " ");
    let d = u64_to_decimal(v);
    push_str(out, d.as_str());
    push_str(out, "\n");
    assert(final(out)@ =~= old(out)@ + scalar_line(name@, v));
}

/// Appends one sample line with one label.
pub fn push_labeled_line(out: &mut String, name: &str, label: &str, key: &str, v: &str)
    ensures
        final(out)@ == old(out)@ + labeled_line(name@, label@, key@, v@),
{
    push_str(out, name);
    push_str(out, "{");
    push_str(out, label);
    push_str(out, "=\"");
    push_str(out, key);
    push_str(out, "\"} ");
    push_str(out, v);
    push_str(out, "\n");
    assert(final(out)@ =~= old(out)@ + labeled_line(name@, label@, key@, v@));
}

/// Appends the lines of a labelled counter, one per entry in order.
pub fn emit_labeled(out: &mut String, name: &str, label: &str, map: &LabelMap<u64>)
    ensures
        final(out)@ == old(out)@ + labeled_lines(name@, label@, map@),
{
    let mut i: usize = 0;
    while i < map.len()
        invariant
            i <= map@.len(),
            out@ == old(out)@ + labeled_lines(name@, label@, map@.take(i as int)),
        decreases map@.len() - i,
    {
        let (k, v) = map.entry(i);
        let d = u64_to_decimal(*v);
        push_labeled_line(out, name, label, k, d.as_str());
        assert(map@.take(i + 1).drop_last() =~= map@.take(i as int));
        i = i + 1;
    }
    assert(map@.take(map@.len() as int) =~= map@);
}

/// Appends the lines of a labelled health gauge, one per entry in order.
pub fn emit_flags(out: &mut String, name: &str, label: &str, map: &LabelMap<bool>)
    ensures
        final(out)@ == old(out)@ + flag_lines(name@, label@, map@),
{
    let mut i: usize = 0;
    while i < map.len()
        invariant
            i <= map@.len(),
            out@ == old(out)@ + flag_lines(name@, label@, map@.take(i as int)),
        decreases map@.len() - i,
    {
        let (k, v) = map.entry(i);
        let t = if *v { "1" } else { "0" };
        proof {
            reveal_strlit("1");
            reveal_strlit("0");
        }
        assert(t@ == flag_text(*v));
        push_labeled_line(out, name, label, k, t);
        assert(map@.take(i + 1).drop_last() =~= map@.take(i as int));
        i = i + 1;
    }
    assert(map@.take(map@.len() as int) =~= map@);
}

/// A key split at its first `:`.
fn split_key(k: &str) -> (r: Option<(Vec<char>, Vec<char>)>)
    ensures
        match split_colon(k@) {
            Some((a, b)) => r matches Some((x, y)) && x@ == a && y@ == b,
            None => r is None,
        },
{
    let kv = chars_of(k);
    proof {
        lemma_find_from(kv@, ':', 0);
    }
    match chars_find(kv.as_slice(), ':') {
        Some(i) => {
            let a = chars_slice(kv.as_slice(), 0, i);
            let b = chars_slice(kv.as_slice(), i + 1, kv.len());
            Some((a, b))
        },
        None => None,
    }
}

/// A key split at `:` into exactly three parts.
fn split_key3(k: &str) -> (r: Option<(Vec<char>, Vec<char>, Vec<char>)>)
    ensures
        match split_three(k@) {
            Some((a, b, c)) => r matches Some((x, y, z)) && x@ == a && y@ == b && z@ == c,
            None => r is None,
        },
{
    match split_key(k) {
        Some((a, rest)) => {
            proof {
                lemma_find_from(rest@, ':', 0);
            }
            match chars_find(rest.as_slice(), ':') {
                Some(j) => {
                    let b = chars_slice(rest.as_slice(), 0, j);
                    let c = chars_slice(rest.as_slice(), j + 1, rest.len());
                    match chars_find(c.as_slice(), ':') {
                        Some(_) => None,
                        None => Some((a, b, c)),
                    }
                },
                None => None,
            }
        },
        None => None,
    }
}

/// Appends one sample line with two labels.
fn push_pair_line(
    out: &mut String,
    name: &str,
    l1: &str,
    v1: &Vec<char>,
    l2: &str,
    v2: &Vec<char>,
    v: &str,
)
    ensures
        final(out)@ == old(out)@ + pair_line(name@, l1@, v1@, l2@, v2@, v@),
{
    push_str(out, name);
    push_str(out, "{");
    push_str(out, l1);
    push_str(out, "=\"");
    append_chars(out, v1.as_slice());
    push_str(out, "\",");
    push_str(out, l2);
    push_str(out, "=\"");
    append_chars(out, v2.as_slice());
    push_str(out, "\"} ");
    push_str(out, v);
    push_str(out, "\n");
    assert(final(out)@ =~= old(out)@ + pair_line(name@, l1@, v1@, l2@, v2@, v@));
}

/// Appends the lines of a counter keyed `a:b`, one per entry whose key
/// has a `:`, in order.
pub fn emit_pairs(out: &mut String, name: &str, l1: &str, l2: &str, map: &LabelMap<u64>)
    ensures
        final(out)@ == old(out)@ + pair_lines(name@, l1@, l2@, map@),
{
    let mut i: usize = 0;
    while i < map.len()
        invariant
            i <= map@.len(),
            out@ == old(out)@ + pair_lines(name@, l1@, l2@, map@.take(i as int)),
        decreases map@.len() - i,
    {
        let (k, v) = map.entry(i);
        assert(map@.take(i + 1).drop_last() =~= map@.take(i as int));
        match split_key(k) {
            Some((a, b)) => {
                let d = u64_to_decimal(*v);
                push_pair_line(out, name, l1, &a, l2, &b, d.as_str());
            },
            None => {
                assert(out@ =~= out@ + Seq::<char>::empty());
            },
        }
        i = i + 1;
    }
    assert(map@.take(map@.len() as int) =~= map@);
}

/// Appends the lines of a health gauge keyed `a:b`, one per entry whose
/// key has a `:`, in order.
pub fn emit_pair_flags(out: &mut String, name: &str, l1: &str, l2: &str, map: &LabelMap<bool>)
    ensures
        final(out)@ == old(out)@ + pair_flag_lines(name@, l1@, l2@, map@),
{
    let mut i: usize = 0;
    while i < map.len()
        invariant
            i <= map@.len(),
            out@ == old(out)@ + pair_flag_lines(name@, l1@, l2@, map@.take(i as int)),
        decreases map@.len() - i,
    {
        let (k, v) = map.entry(i);
        assert(map@.take(i + 1).drop_last() =~= map@.take(i as int));
        match split_key(k) {
            Some((a, b)) => {
                let t = if *v { "1" } else { "0" };
                proof {
                    reveal_strlit("1");
                    reveal_strlit("0");
                }
                assert(t@ == flag_text(*v));
                push_pair_line(out, name, l1, &a, l2, &b, t);
            },
            None => {
                assert(out@ =~= out@ + Seq::<char>::empty());
            },
        }
        i = i + 1;
    }
    assert(map@.take(map@.len() as int) =~= map@);
}

/// Appends the failover lines, one per entry keyed `bucket:from:to`, in
/// order.
pub fn emit_failovers(out: &mut String, map: &LabelMap<u64>)
    ensures
        final(out)@ == old(out)@ + failover_lines(map@),
{
    let mut i: usize = 0;
    while i < map.len()
        invariant
            i <= map@.len(),
            out@ == old(out)@ + failover_lines(map@.take(i as int)),
        decreases map@.len() - i,
    {
        let (k, v) = map.entry(i);
        assert(map@.take(i + 1).drop_last() =~= map@.take(i as int));
        match split_key3(k) {
            Some((a, b, c)) => {
                let ghost before = out@;
                let d = u64_to_decimal(*v);
                push_str(out, "replica_failovers_total{bucket=\"");
                append_chars(out, a.as_slice());
                push_str(out, "\",from=\"");
                append_chars(out, b.as_slice());
                push_str(out, "\",to=\"");
                append_chars(out, c.as_slice());
                push_str(out, "\"} ");
                push_str(out, d.as_str());
                push_str(out, "\n");
                assert(out@ =~= before + ("replica_failovers_total{bucket=\""@ + a@ + "\",from=\""@
                    + b@ + "\",to=\""@ + c@ + "\"} "@ + decimal(*v as nat) + "\n"@));
            },
            None => {
                assert(out@ =~= out@ + Seq::<char>::empty());
            },
        }
        i = i + 1;
    }
    assert(map@.take(map@.len() as int) =~= map@);
}

/// Appends one quantile line of a summary with the value in seconds.
fn push_quantile_seconds(out: &mut String, name: &str, q: &str, us: u64)
    ensures
        final(out)@ == old(out)@ + quantile_line(name@, q@, seconds_text(us)),
{
    push_str(out, name);
    push_str(out, "{quantile=\"");
    push_str(out, q);
    push_str(out, "\"} ");
    push_seconds(out, us);
    push_str(out, "\n");
    assert(final(out)@ =~= old(out)@ + quantile_line(name@, q@, seconds_text(us)));
}

/// Appends one quantile line of a summary with the value in milliseconds.
fn push_quantile_ms(out: &mut String, name: &str, q: &str, us: u64)
    ensures
        final(out)@ == old(out)@ + quantile_line(name@, q@, ms_text(us)),
{
    push_str(out, name);
    push_str(out, "{quantile=\"");
    push_str(out, q);
    push_str(out, "\"} ");
    push_ms(out, us);
    push_str(out, "\n");
    assert(final(out)@ =~= old(out)@ + quantile_line(name@, q@, ms_text(us)));
}

/// Appends the request duration summary (quantiles 0.5, 0.9, 0.95 and
/// 0.99, in seconds).
pub fn emit_duration_summary(out: &mut String, samples: &Vec<u64>)
    ensures
        final(out)@ == old(out)@ + duration_summary(samples@),
{
    let sorted = sorted_copy(samples);
    let n = "http_request_duration_seconds";
    push_quantile_seconds(out, n, "0.5", percentile_of(&sorted, 50));
    push_quantile_seconds(out, n, "0.9", percentile_of(&sorted, 90));
    push_quantile_seconds(out, n, "0.95", percentile_of(&sorted, 95));
    push_quantile_seconds(out, n, "0.99", percentile_of(&sorted, 99));
    assert(final(out)@ =~= old(out)@ + duration_summary(samples@));
}

/// Appends one quantile line of the per-replica duration summary.
fn push_replica_quantile(out: &mut String, a: &Vec<char>, b: &Vec<char>, q: &str, us: u64)
    ensures
        final(out)@ == old(out)@ + replica_quantile_line(a@, b@, q@, seconds_text(us)),
{
    push_str(out, "replica_request_duration_seconds{bucket=\"");
    append_chars(out, a.as_slice());
    push_str(out, "\",replica=\"");
    append_chars(out, b.as_slice());
    push_str(out, "\",quantile=\"");
    push_str(out, q);
    push_str(out, "\"} ");
    push_seconds(out, us);
    push_str(out, "\n");
    assert(final(out)@ =~= old(out)@ + replica_quantile_line(a@, b@, q@, seconds_text(us)));
}

/// Appends the per-replica duration summaries, four quantile lines per
/// entry whose key has a `:`, in order.
pub fn emit_replica_summaries(out: &mut String, map: &LabelMap<Vec<u64>>)
    ensures
        final(out)@ == old(out)@ + replica_summaries(map@),
{
    let mut i: usize = 0;
    while i < map.len()
        invariant
            i <= map@.len(),
            out@ == old(out)@ + replica_summaries(map@.take(i as int)),
        decreases map@.len() - i,
    {
        let (k, v) = map.entry(i);
        assert(map@.take(i + 1).drop_last() =~= map@.take(i as int));
        match split_key(k) {
            Some((a, b)) => {
                let ghost before = out@;
                let sorted = sorted_copy(v);
                push_replica_quantile(out, &a, &b, "0.5", percentile_of(&sorted, 50));
                push_replica_quantile(out, &a, &b, "0.9", percentile_of(&sorted, 90));
                push_replica_quantile(out, &a, &b, "0.95", percentile_of(&sorted, 95));
                push_replica_quantile(out, &a, &b, "0.99", percentile_of(&sorted, 99));
                assert(out@ =~= before + replica_summary_lines(a@, b@, v@));
            },
            None => {
                assert(out@ =~= out@ + Seq::<char>::empty());
            },
        }
        i = i + 1;
    }
    assert(map@.take(map@.len() as int) =~= map@);
}

/// Appends a summary in milliseconds (quantiles 0.5, 0.95 and 0.99);
/// nothing when there are no samples.
pub fn emit_ms_summary(out: &mut String, name: &str, samples: &Vec<u64>)
    ensures
        final(out)@ == old(out)@ + ms_summary(name@, samples@),
{
    if samples.len() == 0 {
        assert(final(out)@ =~= old(out)@ + ms_summary(name@, samples@));
        return;
    }
    let sorted = sorted_copy(samples);
    push_quantile_ms(out, name, "0.5", percentile_of(&sorted, 50));
    push_quantile_ms(out, name, "0.95", percentile_of(&sorted, 95));
    push_quantile_ms(out, name, "0.99", percentile_of(&sorted, 99));
    assert(final(out)@ =~= old(out)@ + ms_summary(name@, samples@));
}

} // verus!
