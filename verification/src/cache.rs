//! Cache keys and the `Cache-Control` directives that decide whether and
//! for how long a response is cached.

use vstd::prelude::*;
use std::time::Duration;
use crate::text::{
    ascii_lower_seq, chars_ascii_lower, chars_eq, chars_find, chars_of, chars_slice,
    chars_starts_with, find_char, has_prefix, lemma_find_from, parse_unsigned,
    parse_unsigned_chars, split_char, split_chars,
};
use crate::time::{duration_from_secs, duration_from_secs_spec};

verus! {

/// Key of a cached object: bucket, object key, optional ETag and optional
/// variant (for transformed images).
#[derive(Debug, Clone, PartialEq, Eq, Hash)]
pub struct CacheKey {
    /// Bucket name.
    pub bucket: String,
    /// S3 object key.
    pub object_key: String,
    /// ETag of the cached version, if known.
    pub etag: Option<String>,
    /// Variant of the object (image transformation parameters).
    pub variant: Option<String>,
}

/// A cached object: its body and the headers it is served with.
#[derive(Debug, Clone)]
pub struct CacheEntry {
    /// Object body.
    pub data: Vec<u8>,
    /// Content-Type of the object.
    pub content_type: String,
    /// ETag of the object (empty when unknown).
    pub etag: String,
    /// Last-Modified of the object.
    pub last_modified: Option<String>,
    /// How long the entry stays fresh, if bounded.
    pub ttl: Option<Duration>,
}

impl CacheEntry {
    /// An entry with the given body, headers and lifetime.
    pub fn new(
        data: Vec<u8>,
        content_type: String,
        etag: String,
        last_modified: Option<String>,
        ttl: Option<Duration>,
    ) -> (r: Self)
        ensures
            r.data@ == data@,
            r.content_type@ == content_type@,
            r.etag@ == etag@,
            r.last_modified == last_modified,
            r.ttl == ttl,
    {
        CacheEntry { data, content_type, etag, last_modified, ttl }
    }
}

/// The directives of a `Cache-Control` header that caching acts on.
#[derive(Debug, Clone, Copy, PartialEq, Eq, Structural)]
pub struct CacheControl {
    /// `no-store`: the response must not be stored.
    pub no_store: bool,
    /// `no-cache`: stored responses must be revalidated before use.
    pub no_cache: bool,
    /// `private`: only a private cache may store the response.
    pub private: bool,
    /// `public`: any cache may store the response.
    pub public: bool,
    /// `must-revalidate`.
    pub must_revalidate: bool,
    /// `max-age=N`, in seconds.
    pub max_age: Option<u64>,
    /// `s-maxage=N`, in seconds (shared caches).
    pub s_maxage: Option<u64>,
}

/// No directive at all.
pub open spec fn no_directives() -> CacheControl {
    CacheControl {
        no_store: false,
        no_cache: false,
        private: false,
        public: false,
        must_revalidate: false,
        max_age: None,
        s_maxage: None,
    }
}

impl Default for CacheControl {
    /// No directive at all.
    fn default() -> (r: Self)
        ensures
            r == no_directives(),
    {
        CacheControl {
            no_store: false,
            no_cache: false,
            private: false,
            public: false,
            must_revalidate: false,
            max_age: None,
            s_maxage: None,
        }
    }
}

/// Whether a character is HTTP optional whitespace (space or tab).
pub open spec fn is_ows(c: char) -> bool {
    c == ' ' || c == '\t'
}

/// `s` without leading optional whitespace.
pub open spec fn trim_start_ows(s: Seq<char>) -> Seq<char>
    decreases s.len(),
{
    if s.len() > 0 && is_ows(s[0]) {
        trim_start_ows(s.drop_first())
    } else {
        s
    }
}

/// `s` without trailing optional whitespace.
pub open spec fn trim_end_ows(s: Seq<char>) -> Seq<char>
    decreases s.len(),
{
    if s.len() > 0 && is_ows(s.last()) {
        trim_end_ows(s.drop_last())
    } else {
        s
    }
}

/// `s` without leading and trailing optional whitespace.
pub open spec fn trim_ows(s: Seq<char>) -> Seq<char> {
    trim_end_ows(trim_start_ows(s))
}

/// The value of a `name=N` directive, when the number is valid.
pub open spec fn directive_seconds(d: Seq<char>, name: Seq<char>) -> Option<u64> {
    if has_prefix(d, name) {
        match parse_unsigned(d.skip(name.len() as int), u64::MAX as nat) {
            Some(v) => Some(v as u64),
            None => None,
        }
    } else {
        None
    }
}

/// The directives after reading one more part of the header (trimmed and
/// lower-cased; unknown parts and invalid numbers are ignored).
pub open spec fn apply_directive(cc: CacheControl, part: Seq<char>) -> CacheControl {
    let d = ascii_lower_seq(trim_ows(part));
    if d == "no-store"@ {
        CacheControl { no_store: true, ..cc }
    } else if d == "no-cache"@ {
        CacheControl { no_cache: true, ..cc }
    } else if d == "private"@ {
        CacheControl { private: true, ..cc }
    } else if d == "public"@ {
        CacheControl { public: true, ..cc }
    } else if d == "must-revalidate"@ {
        CacheControl { must_revalidate: true, ..cc }
    } else if directive_seconds(d, "max-age="@) is Some {
        CacheControl { max_age: directive_seconds(d, "max-age="@), ..cc }
    } else if directive_seconds(d, "s-maxage="@) is Some {
        CacheControl { s_maxage: directive_seconds(d, "s-maxage="@), ..cc }
    } else {
        cc
    }
}

/// The directives of a sequence of parts, read in order.
pub open spec fn apply_directives(parts: Seq<Seq<char>>) -> CacheControl
    decreases parts.len(),
{
    if parts.len() == 0 {
        no_directives()
    } else {
        apply_directive(apply_directives(parts.drop_last()), parts.last())
    }
}

/// The directives of a `Cache-Control` header value.
pub open spec fn parse_cache_control(s: Seq<char>) -> CacheControl {
    apply_directives(split_char(s, ','))
}

/// Whether a shared cache may store a response with these directives.
pub open spec fn may_store(cc: CacheControl) -> bool {
    !cc.no_store && !cc.private
}

/// The lifetime in seconds the directives give a stored response, if any:
/// `s-maxage` first, then `max-age`.
pub open spec fn lifetime_secs(cc: CacheControl) -> Option<u64> {
    match cc.s_maxage {
        Some(v) => Some(v),
        None => cc.max_age,
    }
}

/// A part of a header that reads as `no-store`.
pub open spec fn is_no_store(part: Seq<char>) -> bool {
    ascii_lower_seq(trim_ows(part)) == "no-store"@
}

/// Reading a part never clears `no-store` or `private`.
proof fn lemma_flags_stay(cc: CacheControl, part: Seq<char>)
    ensures
        cc.no_store ==> apply_directive(cc, part).no_store,
        cc.private ==> apply_directive(cc, part).private,
{
}

/// Law: a response whose `Cache-Control` header has a `no-store` part,
/// wherever it stands and in any letter case, is never stored.
pub proof fn law_no_store_never_cached(parts: Seq<Seq<char>>, i: int)
    requires
        0 <= i < parts.len(),
        is_no_store(parts[i]),
    ensures
        apply_directives(parts).no_store,
        !may_store(apply_directives(parts)),
    decreases parts.len(),
{
    if i == parts.len() - 1 {
    } else {
        law_no_store_never_cached(parts.drop_last(), i);
        lemma_flags_stay(apply_directives(parts.drop_last()), parts.last());
    }
}

/// `s` without leading and trailing optional whitespace.
fn trim_ows_exec(s: &[char]) -> (r: Vec<char>)
    ensures
        r@ == trim_ows(s@),
{
    let mut start: usize = 0;
    assert(s@.skip(0) =~= s@);
    while start < s.len() && (s[start] == ' ' || s[start] == '\t')
        invariant
            start <= s@.len(),
            trim_start_ows(s@) == trim_start_ows(s@.skip(start as int)),
        decreases s@.len() - start,
    {
        assert(s@.skip(start as int).drop_first() =~= s@.skip(start + 1));
        start = start + 1;
    }
    assert(trim_start_ows(s@) == s@.skip(start as int));
    let mut end: usize = s.len();
    while end > start && (s[end - 1] == ' ' || s[end - 1] == '\t')
        invariant
            start <= end <= s@.len(),
            trim_ows(s@) == trim_end_ows(s@.subrange(start as int, end as int)),
        decreases end,
    {
        assert(s@.subrange(start as int, end as int).drop_last() =~= s@.subrange(
            start as int,
            end - 1,
        ));
        end = end - 1;
    }
    chars_slice(s, start, end)
}

/// The value of a `name=N` directive, when the number is valid.
fn directive_seconds_exec(d: &[char], name: &str) -> (r: Option<u64>)
    ensures
        r == directive_seconds(d@, name@),
{
    let n = chars_of(name);
    if chars_starts_with(d, n.as_slice()) {
        let rest = chars_slice(d, n.len(), d.len());
        assert(rest@ == d@.skip(name@.len() as int));
        parse_unsigned_chars(rest.as_slice(), u64::MAX)
    } else {
        None
    }
}

impl CacheControl {
    /// Parses a `Cache-Control` header value: the parts between commas,
    /// trimmed of spaces and tabs and matched without regard to letter
    /// case; a repeated directive takes the last valid value, unknown
    /// parts are ignored.
    pub fn parse(header: &str) -> (r: CacheControl)
        ensures
            r == parse_cache_control(header@),
    {
        let chars = chars_of(header);
        let parts = split_chars(chars.as_slice(), ',');
        let mut cc = CacheControl::default();
        let mut i: usize = 0;
        let ghost sp = split_char(header@, ',');
        while i < parts.len()
            invariant
                i <= parts@.len(),
                parts@.len() == sp.len(),
                forall|j: int| 0 <= j < parts@.len() ==> (#[trigger] parts@[j])@ == sp[j],
                cc == apply_directives(sp.take(i as int)),
            decreases parts@.len() - i,
        {
            let t = trim_ows_exec(parts[i].as_slice());
            let d = chars_ascii_lower(t.as_slice());
            assert(sp.take(i + 1).drop_last() =~= sp.take(i as int));
            assert(d@ == ascii_lower_seq(trim_ows(sp[i as int])));
            if chars_eq(d.as_slice(), chars_of("no-store").as_slice()) {
                cc.no_store = true;
            } else if chars_eq(d.as_slice(), chars_of("no-cache").as_slice()) {
                cc.no_cache = true;
            } else if chars_eq(d.as_slice(), chars_of("private").as_slice()) {
                cc.private = true;
            } else if chars_eq(d.as_slice(), chars_of("public").as_slice()) {
                cc.public = true;
            } else if chars_eq(d.as_slice(), chars_of("must-revalidate").as_slice()) {
                cc.must_revalidate = true;
            } else {
                let m = directive_seconds_exec(d.as_slice(), "max-age=");
                if m.is_some() {
                    cc.max_age = m;
                } else {
                    let sm = directive_seconds_exec(d.as_slice(), "s-maxage=");
                    if sm.is_some() {
                        cc.s_maxage = sm;
                    }
                }
            }
            i = i + 1;
        }
        assert(sp.take(sp.len() as int) =~= sp);
        cc
    }

    /// Whether a shared cache may store the response: neither `no-store`
    /// nor `private`.
    pub fn should_store(&self) -> (r: bool)
        ensures
            r == may_store(*self),
    {
        !self.no_store && !self.private
    }

    /// The time a stored response stays fresh: `s-maxage`, else
    /// `max-age`, else `default`.
    pub fn effective_ttl(&self, default: Duration) -> (r: Duration)
        ensures
            match lifetime_secs(*self) {
                Some(v) => r == duration_from_secs_spec(v),
                None => r == default,
            },
    {
        match self.s_maxage {
            Some(v) => duration_from_secs(v),
            None => match self.max_age {
                Some(v) => duration_from_secs(v),
                None => default,
            },
        }
    }
}

} // verus!
