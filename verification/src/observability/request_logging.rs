//! Request and response logging decisions: which paths and status codes
//! are logged, which header values are redacted, how bodies are cut, and
//! the record of a logged request or response.

use vstd::prelude::*;
use crate::observability::config::RequestLoggingConfig;
use crate::text::{ascii_lower_seq, decimal, push_char, push_str, to_string, u64_to_decimal, str_eq};

verus! {

/// Whether every character of `s` is ASCII.
pub open spec fn all_ascii(s: Seq<char>) -> bool {
    forall|i: int| 0 <= i < s.len() ==> (#[trigger] s[i] as u32) < 128
}

/// What `regex::Regex::new` accepts: whether a pattern compiles.
pub uninterp spec fn regex_valid(pattern: Seq<char>) -> bool;

/// What `regex::Regex::is_match` answers for a compiled pattern and a
/// text.
pub uninterp spec fn regex_match(pattern: Seq<char>, text: Seq<char>) -> bool;

/// What `str::to_lowercase` returns.
pub uninterp spec fn lowercase_of(s: Seq<char>) -> Seq<char>;

/// What `String::from_utf8_lossy` returns.
pub uninterp spec fn utf8_lossy(bytes: Seq<u8>) -> Seq<char>;

/// `regex::Regex::new(pattern).is_ok()`: whether the pattern compiles.
#[verifier::external_body]
fn regex_compiles(pattern: &str) -> (r: bool)
    ensures
        r == regex_valid(pattern@),
{
    regex::Regex::new(pattern).is_ok()
}

/// `regex::Regex::new(pattern)` followed by `is_match(text)` on the
/// compiled expression; for a pattern that compiles, the answer is the
/// named result.
#[verifier::external_body]
fn regex_is_match(pattern: &str, text: &str) -> (r: bool)
    ensures
        regex_valid(pattern@) ==> r == regex_match(pattern@, text@),
{
    match regex::Regex::new(pattern) {
        Ok(re) => re.is_match(text),
        Err(_) => false,
    }
}

/// `str::to_lowercase`: the lower-case form of `s` (for ASCII text, the
/// ASCII lower casing, as the standard library documents for ASCII
/// letters).
#[verifier::external_body]
fn to_lowercase(s: &str) -> (r: String)
    ensures
        r@ == lowercase_of(s@),
        all_ascii(s@) ==> r@ == ascii_lower_seq(s@),
{
    s.to_lowercase()
}

/// `String::from_utf8_lossy`: the bytes as text, invalid sequences
/// replaced by U+FFFD. Bytes below 0x80 are valid UTF-8, each byte one
/// character, and come back unchanged (the documentation: valid UTF-8 is
/// returned as it is).
#[verifier::external_body]
fn from_utf8_lossy(bytes: &[u8]) -> (r: String)
    ensures
        r@ == utf8_lossy(bytes@),
        (forall|i: int| 0 <= i < bytes@.len() ==> #[trigger] bytes@[i] < 0x80) ==> r@ == bytes@.map_values(
            |b: u8| b as char,
        ),
{
    String::from_utf8_lossy(bytes).to_string()
}

/// The regular expression text of one glob character: `.` is literal,
/// `*` any run of characters, `?` any one character.
pub open spec fn glob_char_regex(c: char) -> Seq<char> {
    if c == '.' {
        seq!['\\', '.']
    } else if c == '*' {
        seq!['.', '*']
    } else if c == '?' {
        seq!['.']
    } else {
        seq![c]
    }
}

/// The regular expression text of a glob, without anchors.
pub open spec fn glob_regex_body(p: Seq<char>) -> Seq<char>
    decreases p.len(),
{
    if p.len() == 0 {
        Seq::empty()
    } else {
        glob_regex_body(p.drop_last()) + glob_char_regex(p.last())
    }
}

/// The anchored regular expression text of a glob.
pub open spec fn glob_regex(p: Seq<char>) -> Seq<char> {
    seq!['^'] + glob_regex_body(p) + seq!['$']
}

/// The expressions of the globs that compile, in order.
pub open spec fn compiled_globs(globs: Seq<String>) -> Seq<Seq<char>>
    decreases globs.len(),
{
    if globs.len() == 0 {
        Seq::empty()
    } else {
        let rest = compiled_globs(globs.drop_last());
        let re = glob_regex(globs.last()@);
        if regex_valid(re) {
            rest.push(re)
        } else {
            rest
        }
    }
}

/// Whether one of the expressions matches the text.
pub open spec fn any_match(res: Seq<Seq<char>>, text: Seq<char>) -> bool {
    exists|i: int| 0 <= i < res.len() && regex_match(#[trigger] res[i], text)
}

/// Whether a path is logged: no excluded expression matches it, and it
/// matches an included expression unless there are none.
pub open spec fn path_logged(included: Seq<Seq<char>>, excluded: Seq<Seq<char>>, path: Seq<char>) -> bool {
    !any_match(excluded, path) && (included.len() == 0 || any_match(included, path))
}

/// Whether a status is logged: every status when none is configured.
pub open spec fn status_logged(codes: Seq<u16>, status: u16) -> bool {
    codes.len() == 0 || codes.contains(status)
}

/// The lower-case forms of the redacted header names.
pub open spec fn lowered(names: Seq<String>) -> Seq<Seq<char>> {
    names.map_values(|n: String| lowercase_of(n@))
}

/// Whether every byte is below 0x80, that is, ASCII.
pub open spec fn ascii_bytes(b: Seq<u8>) -> bool {
    forall|i: int| 0 <= i < b.len() ==> #[trigger] b[i] < 0x80
}

/// ASCII bytes as text, one character per byte.
pub open spec fn ascii_text(b: Seq<u8>) -> Seq<char> {
    b.map_values(|x: u8| x as char)
}

/// The logged form of a body: all of it when within `max` bytes, else
/// its first `max` bytes and a note of its full length.
pub open spec fn truncated_body(body: Seq<u8>, max: usize) -> Seq<char> {
    if body.len() <= max {
        utf8_lossy(body)
    } else {
        utf8_lossy(body.take(max as int)) + "... [truncated, "@ + decimal(body.len()) + " bytes total]"@
    }
}

/// Logs requests and responses after filters, with redaction.
#[derive(Debug)]
pub struct RequestLogger {
    config: RequestLoggingConfig,
    include_patterns: Vec<String>,
    exclude_patterns: Vec<String>,
    status_codes: Vec<u16>,
    redact_headers_lower: Vec<String>,
}

/// The text of a list of strings.
pub open spec fn texts(v: Seq<String>) -> Seq<Seq<char>> {
    v.map_values(|s: String| s@)
}

/// A request or response as it is logged.
#[derive(Debug, Clone)]
pub struct LoggedExchange {
    /// Correlation id of the request.
    pub correlation_id: String,
    /// Each header as `name: value`, values redacted as configured.
    pub headers: Vec<String>,
    /// The body as logged, when body logging is on and there is a body.
    pub body: Option<String>,
}

/// A header as logged: `name: value`, the value `[REDACTED]` when the
/// lower-case name is among the redacted names.
pub open spec fn logged_header(redacted: Seq<Seq<char>>, name: Seq<char>, value: Seq<char>) -> Seq<char> {
    name + ": "@ + (if redacted.contains(lowercase_of(name)) {
        "[REDACTED]"@
    } else {
        value
    })
}

/// A logged record carries the headers and body as logged.
pub open spec fn record_of(
    rec: LoggedExchange,
    redacted: Seq<Seq<char>>,
    max_body: usize,
    log_body: bool,
    correlation_id: Seq<char>,
    headers: Seq<(String, String)>,
    body: Option<&[u8]>,
) -> bool {
    &&& rec.correlation_id@ == correlation_id
    &&& rec.headers@.len() == headers.len()
    &&& forall|i: int|
        0 <= i < headers.len() ==> (#[trigger] rec.headers@[i])@ == logged_header(
            redacted,
            headers[i].0@,
            headers[i].1@,
        )
    &&& match body {
        Some(b) => if log_body {
            rec.body matches Some(t) && t@ == truncated_body(b@, max_body)
        } else {
            rec.body is None
        },
        None => rec.body is None,
    }
}

impl RequestLogger {
    /// The compiled patterns, status codes and lower-case header names are
    /// those of the configuration.
    #[verifier::type_invariant]
    spec fn consistent(self) -> bool {
        &&& texts(self.include_patterns@) == compiled_globs(self.config.include_paths@)
        &&& texts(self.exclude_patterns@) == compiled_globs(self.config.exclude_paths@)
        &&& self.status_codes@ == self.config.status_codes@
        &&& texts(self.redact_headers_lower@) == lowered(self.config.redact_headers@)
    }

    /// The configuration of the logger.
    pub closed spec fn settings(self) -> RequestLoggingConfig {
        self.config
    }

    /// The include expressions in use.
    pub closed spec fn include_regexes(self) -> Seq<Seq<char>> {
        texts(self.include_patterns@)
    }

    /// The exclude expressions in use.
    pub closed spec fn exclude_regexes(self) -> Seq<Seq<char>> {
        texts(self.exclude_patterns@)
    }

    /// The logged status codes.
    pub closed spec fn status_filter(self) -> Seq<u16> {
        self.status_codes@
    }

    /// The redacted header names in lower case.
    pub closed spec fn redacted_lower(self) -> Seq<Seq<char>> {
        texts(self.redact_headers_lower@)
    }

    /// The anchored regular expression of a glob pattern, when it
    /// compiles: `.` literal, `*` any run of characters, `?` any one.
    pub fn glob_to_regex(pattern: &str) -> (r: Option<String>)
        ensures
            regex_valid(glob_regex(pattern@)) ==> (r matches Some(s) && s@ == glob_regex(pattern@)),
            !regex_valid(glob_regex(pattern@)) ==> r is None,
    {
        let chars = crate::text::chars_of(pattern);
        let mut out = String::new();
        push_char(&mut out, '^');
        let mut i: usize = 0;
        while i < chars.len()
            invariant
                i <= chars@.len(),
                chars@ == pattern@,
                out@ == seq!['^'] + glob_regex_body(chars@.take(i as int)),
            decreases chars@.len() - i,
        {
            let c = chars[i];
            if c == '.' {
                push_char(&mut out, '\\');
                push_char(&mut out, '.');
            } else if c == '*' {
                push_char(&mut out, '.');
                push_char(&mut out, '*');
            } else if c == '?' {
                push_char(&mut out, '.');
            } else {
                push_char(&mut out, c);
            }
            assert(chars@.take(i + 1).drop_last() =~= chars@.take(i as int));
            assert(out@ =~= seq!['^'] + glob_regex_body(chars@.take(i + 1)));
            i = i + 1;
        }
        push_char(&mut out, '$');
        assert(chars@.take(chars@.len() as int) =~= chars@);
        assert(out@ =~= glob_regex(pattern@));
        if regex_compiles(out.as_str()) {
            Some(out)
        } else {
            None
        }
    }

    /// The expressions of the globs that compile.
    fn compile_globs(globs: &Vec<String>) -> (r: Vec<String>)
        ensures
            texts(r@) == compiled_globs(globs@),
    {
        let mut out: Vec<String> = Vec::new();
        let mut i: usize = 0;
        while i < globs.len()
            invariant
                i <= globs@.len(),
                texts(out@) == compiled_globs(globs@.take(i as int)),
            decreases globs@.len() - i,
        {
            assert(globs@.take(i + 1).drop_last() =~= globs@.take(i as int));
            let ghost before = out@;
            match Self::glob_to_regex(globs[i].as_str()) {
                Some(re) => {
                    out.push(re);
                    assert(texts(out@) =~= texts(before).push(glob_regex(globs@[i as int]@)));
                },
                None => {},
            }
            i = i + 1;
        }
        assert(globs@.take(globs@.len() as int) =~= globs@);
        out
    }

    /// A logger for the given configuration: its glob patterns compiled
    /// (those that do not compile are dropped) and its redacted header
    /// names lower-cased.
    pub fn new(config: RequestLoggingConfig) -> (r: Self)
        ensures
            r.settings() == config,
            r.include_regexes() == compiled_globs(config.include_paths@),
            r.exclude_regexes() == compiled_globs(config.exclude_paths@),
            r.status_filter() == config.status_codes@,
            r.redacted_lower() == lowered(config.redact_headers@),
            forall|k: int|
                0 <= k < config.redact_headers@.len() && all_ascii(config.redact_headers@[k]@)
                    ==> #[trigger] r.redacted_lower()[k] == ascii_lower_seq(config.redact_headers@[k]@),
    {
        let include_patterns = Self::compile_globs(&config.include_paths);
        let exclude_patterns = Self::compile_globs(&config.exclude_paths);
        let status_codes = config.status_codes.clone();
        let mut redact: Vec<String> = Vec::new();
        let mut i: usize = 0;
        while i < config.redact_headers.len()
            invariant
                i <= config.redact_headers@.len(),
                redact@.len() == i,
                texts(redact@) == lowered(config.redact_headers@.take(i as int)),
                forall|k: int|
                    0 <= k < i && all_ascii(config.redact_headers@[k]@) ==> #[trigger] texts(redact@)[k]
                        == ascii_lower_seq(config.redact_headers@[k]@),
            decreases config.redact_headers@.len() - i,
        {
            let l = to_lowercase(config.redact_headers[i].as_str());
            let ghost before = redact@;
            let ghost lv = l@;
            redact.push(l);
            assert(config.redact_headers@.take(i + 1) =~= config.redact_headers@.take(i as int).push(
                config.redact_headers@[i as int],
            ));
            assert forall|k: int| 0 <= k < i + 1 implies #[trigger] texts(redact@)[k] == lowered(
                config.redact_headers@.take(i + 1),
            )[k] by {
                if k < i {
                    assert(texts(before)[k] == lowered(config.redact_headers@.take(i as int))[k]);
                    assert(texts(redact@)[k] == texts(before)[k]);
                } else {
                    assert(redact@[k]@ == lv);
                }
            }
            assert(texts(redact@) =~= lowered(config.redact_headers@.take(i + 1)));
            assert forall|k: int|
                0 <= k < i + 1 && all_ascii(config.redact_headers@[k]@) implies #[trigger] texts(redact@)[k]
                == ascii_lower_seq(config.redact_headers@[k]@) by {
                if k < i {
                    assert(texts(redact@)[k] == texts(before)[k]);
                } else {
                    assert(redact@[k]@ == lv);
                }
            }
            i = i + 1;
        }
        assert(config.redact_headers@.take(config.redact_headers@.len() as int)
            =~= config.redact_headers@);
        RequestLogger {
            config,
            include_patterns,
            exclude_patterns,
            status_codes,
            redact_headers_lower: redact,
        }
    }

    /// Whether requests are logged.
    pub fn should_log_requests(&self) -> (r: bool)
        ensures
            r == self.settings().log_requests,
    {
        self.config.log_requests
    }

    /// Whether responses are logged.
    pub fn should_log_responses(&self) -> (r: bool)
        ensures
            r == self.settings().log_responses,
    {
        self.config.log_responses
    }

    /// Whether one of the expressions matches the text.
    fn matches_any(patterns: &Vec<String>, text: &str) -> (r: bool)
        requires
            forall|i: int| 0 <= i < patterns@.len() ==> regex_valid(#[trigger] patterns@[i]@),
        ensures
            r == any_match(texts(patterns@), text@),
    {
        let mut i: usize = 0;
        while i < patterns.len()
            invariant
                i <= patterns@.len(),
                forall|k: int| 0 <= k < patterns@.len() ==> regex_valid(#[trigger] patterns@[k]@),
                forall|k: int| 0 <= k < i ==> !regex_match(#[trigger] texts(patterns@)[k], text@),
            decreases patterns@.len() - i,
        {
            if regex_is_match(patterns[i].as_str(), text) {
                assert(regex_match(texts(patterns@)[i as int], text@));
                return true;
            }
            i = i + 1;
        }
        false
    }

    /// Whether a path is logged: not excluded, and included unless no
    /// include pattern is configured.
    pub fn should_log_path(&self, path: &str) -> (r: bool)
        ensures
            r == path_logged(self.include_regexes(), self.exclude_regexes(), path@),
    {
        proof {
            use_type_invariant(self);
            lemma_compiled_valid(self.config.include_paths@);
            lemma_compiled_valid(self.config.exclude_paths@);
            assert forall|i: int| 0 <= i < self.include_patterns@.len() implies regex_valid(
                #[trigger] self.include_patterns@[i]@,
            ) by {
                assert(texts(self.include_patterns@)[i] == self.include_patterns@[i]@);
            }
            assert forall|i: int| 0 <= i < self.exclude_patterns@.len() implies regex_valid(
                #[trigger] self.exclude_patterns@[i]@,
            ) by {
                assert(texts(self.exclude_patterns@)[i] == self.exclude_patterns@[i]@);
            }
        }
        if Self::matches_any(&self.exclude_patterns, path) {
            return false;
        }
        if self.include_patterns.len() == 0 {
            return true;
        }
        Self::matches_any(&self.include_patterns, path)
    }

    /// Whether a status code is logged.
    pub fn should_log_status(&self, status: u16) -> (r: bool)
        ensures
            r == status_logged(self.status_filter(), status),
    {
        if self.status_codes.len() == 0 {
            return true;
        }
        let mut i: usize = 0;
        while i < self.status_codes.len()
            invariant
                i <= self.status_codes@.len(),
                forall|k: int| 0 <= k < i ==> self.status_codes@[k] != status,
            decreases self.status_codes@.len() - i,
        {
            if self.status_codes[i] == status {
                assert(self.status_codes@.contains(status));
                return true;
            }
            i = i + 1;
        }
        false
    }

    /// Whether a header's value is redacted (names compared in lower
    /// case).
    pub fn should_redact_header(&self, header_name: &str) -> (r: bool)
        ensures
            r == self.redacted_lower().contains(lowercase_of(header_name@)),
            all_ascii(header_name@) ==> r == self.redacted_lower().contains(ascii_lower_seq(header_name@)),
    {
        let l = to_lowercase(header_name);
        let mut i: usize = 0;
        while i < self.redact_headers_lower.len()
            invariant
                i <= self.redact_headers_lower@.len(),
                l@ == lowercase_of(header_name@),
                all_ascii(header_name@) ==> l@ == ascii_lower_seq(header_name@),
                forall|k: int| 0 <= k < i ==> texts(self.redact_headers_lower@)[k] != l@,
            decreases self.redact_headers_lower@.len() - i,
        {
            if str_eq(self.redact_headers_lower[i].as_str(), l.as_str()) {
                assert(texts(self.redact_headers_lower@)[i as int] == l@);
                return true;
            }
            i = i + 1;
        }
        false
    }

    /// The logged form of a header value: `[REDACTED]` for a redacted
    /// header, else the value.
    pub fn redact_header_value(&self, header_name: &str, value: &str) -> (r: String)
        ensures
            r@ == (if self.redacted_lower().contains(lowercase_of(header_name@)) {
                "[REDACTED]"@
            } else {
                value@
            }),
            all_ascii(header_name@) ==> r@ == (if self.redacted_lower().contains(ascii_lower_seq(header_name@)) {
                "[REDACTED]"@
            } else {
                value@
            }),
    {
        if self.should_redact_header(header_name) {
            to_string("[REDACTED]")
        } else {
            to_string(value)
        }
    }

    /// The logged form of a body, cut to the configured size.
    pub fn truncate_body(&self, body: &[u8]) -> (r: String)
        ensures
            r@ == truncated_body(body@, self.settings().max_body_size),
            ascii_bytes(body@) && body@.len() <= self.settings().max_body_size ==> r@ == ascii_text(body@),
            ascii_bytes(body@) && body@.len() > self.settings().max_body_size ==> r@ == ascii_text(
                body@.take(self.settings().max_body_size as int),
            ) + "... [truncated, "@ + decimal(body@.len()) + " bytes total]"@,
    {
        let max_size = self.config.max_body_size;
        if body.len() <= max_size {
            from_utf8_lossy(body)
        } else {
            let mut head: Vec<u8> = Vec::new();
            let mut i: usize = 0;
            while i < max_size
                invariant
                    i <= max_size < body@.len(),
                    head@ == body@.take(i as int),
                decreases max_size - i,
            {
                head.push(body[i]);
                assert(body@.take(i + 1) =~= body@.take(i as int).push(body@[i as int]));
                i = i + 1;
            }
            assert(ascii_bytes(body@) ==> ascii_bytes(head@));
            let mut out = from_utf8_lossy(head.as_slice());
            push_str(&mut out, "... [truncated, ");
            let n = u64_to_decimal(body.len() as u64);
            push_str(&mut out, n.as_str());
            push_str(&mut out, " bytes total]");
            assert(out@ =~= truncated_body(body@, max_size));
            assert(ascii_bytes(body@) ==> out@ =~= ascii_text(body@.take(max_size as int)) + "... [truncated, "@
                + decimal(body@.len()) + " bytes total]"@);
            out
        }
    }

    /// The logged header lines, each `name: value` with redaction.
    fn header_strings(&self, headers: &[(String, String)]) -> (r: Vec<String>)
        ensures
            r@.len() == headers@.len(),
            forall|i: int|
                0 <= i < headers@.len() ==> (#[trigger] r@[i])@ == logged_header(
                    self.redacted_lower(),
                    headers@[i].0@,
                    headers@[i].1@,
                ),
    {
        let mut out: Vec<String> = Vec::new();
        let mut i: usize = 0;
        while i < headers.len()
            invariant
                i <= headers@.len(),
                out@.len() == i,
                forall|k: int|
                    0 <= k < i ==> (#[trigger] out@[k])@ == logged_header(
                        self.redacted_lower(),
                        headers@[k].0@,
                        headers@[k].1@,
                    ),
            decreases headers@.len() - i,
        {
            let mut line = to_string(headers[i].0.as_str());
            push_str(&mut line, ": ");
            let v = self.redact_header_value(headers[i].0.as_str(), headers[i].1.as_str());
            push_str(&mut line, v.as_str());
            out.push(line);
            i = i + 1;
        }
        out
    }

    /// The record of a request when it is logged: request logging on and
    /// the path logged; headers redacted, body included when request
    /// bodies are logged.
    pub fn log_request(
        &self,
        method: &str,
        path: &str,
        headers: &[(String, String)],
        body: Option<&[u8]>,
        correlation_id: &str,
    ) -> (r: Option<LoggedExchange>)
        ensures
            r is Some <==> (self.settings().log_requests && path_logged(
                self.include_regexes(),
                self.exclude_regexes(),
                path@,
            )),
            r matches Some(rec) ==> record_of(
                rec,
                self.redacted_lower(),
                self.settings().max_body_size,
                self.settings().log_request_body,
                correlation_id@,
                headers@,
                body,
            ),
    {
        if !self.config.log_requests {
            return None;
        }
        if !self.should_log_path(path) {
            return None;
        }
        let lines = self.header_strings(headers);
        let body_str = if self.config.log_request_body {
            match body {
                Some(b) => Some(self.truncate_body(b)),
                None => None,
            }
        } else {
            None
        };
        Some(LoggedExchange { correlation_id: to_string(correlation_id), headers: lines, body: body_str })
    }

    /// The record of a response when it is logged: response logging on,
    /// the path logged and the status logged; headers redacted, body
    /// included when response bodies are logged.
    pub fn log_response(
        &self,
        status: u16,
        path: &str,
        headers: &[(String, String)],
        body: Option<&[u8]>,
        latency_ms: u64,
        correlation_id: &str,
    ) -> (r: Option<LoggedExchange>)
        ensures
            r is Some <==> (self.settings().log_responses && path_logged(
                self.include_regexes(),
                self.exclude_regexes(),
                path@,
            ) && status_logged(self.status_filter(), status)),
            r matches Some(rec) ==> record_of(
                rec,
                self.redacted_lower(),
                self.settings().max_body_size,
                self.settings().log_response_body,
                correlation_id@,
                headers@,
                body,
            ),
    {
        if !self.config.log_responses {
            return None;
        }
        if !self.should_log_path(path) {
            return None;
        }
        if !self.should_log_status(status) {
            return None;
        }
        let lines = self.header_strings(headers);
        let body_str = if self.config.log_response_body {
            match body {
                Some(b) => Some(self.truncate_body(b)),
                None => None,
            }
        } else {
            None
        };
        Some(LoggedExchange { correlation_id: to_string(correlation_id), headers: lines, body: body_str })
    }
}

/// Every expression kept from the globs compiles.
proof fn lemma_compiled_valid(globs: Seq<String>)
    ensures
        forall|i: int|
            0 <= i < compiled_globs(globs).len() ==> regex_valid(#[trigger] compiled_globs(globs)[i]),
    decreases globs.len(),
{
    if globs.len() > 0 {
        lemma_compiled_valid(globs.drop_last());
        let rest = compiled_globs(globs.drop_last());
        let re = glob_regex(globs.last()@);
        if regex_valid(re) {
            assert forall|i: int| 0 <= i < rest.push(re).len() implies regex_valid(
                #[trigger] rest.push(re)[i],
            ) by {
                if i < rest.len() {
                    assert(rest.push(re)[i] == rest[i]);
                }
            }
        }
    }
}

impl Default for RequestLogger {
    /// A logger with the default configuration (nothing logged).
    fn default() -> (r: Self)
        ensures
            !r.settings().log_requests,
            !r.settings().log_responses,
    {
        RequestLogger::new(RequestLoggingConfig::default())
    }
}

} // verus!
