//! Wire decoder. Each SSE message's `data` field is one JSON document whose
//! outer shape is `{"<VariantName>": <payload>}`, or the bare string
//! `"<VariantName>"` for payload-less variants. The decoder validates that
//! outer shape itself, keeps the payload as raw text, and parses the version
//! announcement's `"major.minor.patch"` payload into its components. The
//! payload's own syntax is checked as one well-formed JSON document; its
//! meaning stays with the consumer.
use vstd::prelude::*;
use crate::error::ClientError;
use crate::types::{EventPayload, EventPayloadView, ProtocolVersion, SseData, SseDataView};

verus! {

/// Whether `s` is one complete JSON document as the JSON parser this
/// library defers to accepts it. Named, not spelled out: full JSON syntax
/// is the parser's business, and the verdict depends on the text alone.
pub uninterp spec fn json_wf(s: Seq<char>) -> bool;

/// Relies on `serde_json::from_str::<serde_json::Value>`: whether it accepts
/// a text as one complete JSON document is a function of the text alone.
#[verifier::external_body]
fn json_syntax_ok(s: &str) -> (r: bool)
    ensures
        r == json_wf(s@),
{
    serde_json::from_str::<serde_json::Value>(s).is_ok()
}

/// The whitespace JSON allows between tokens.
pub open spec fn is_json_ws(c: char) -> bool {
    c == ' ' || c == '\t' || c == '\n' || c == '\r'
}

/// First index at or after `i` holding a non-whitespace character, or the
/// length when only whitespace remains.
pub open spec fn ws_end(s: Seq<char>, i: int) -> int
    recommends
        0 <= i <= s.len(),
    decreases s.len() - i when 0 <= i <= s.len()
{
    if i < s.len() && is_json_ws(s[i]) {
        ws_end(s, i + 1)
    } else {
        i
    }
}

/// Index of the quote closing a JSON string whose body starts at `j`,
/// honouring backslash escapes; `None` when the string never closes.
pub open spec fn str_close(s: Seq<char>, j: int) -> Option<int>
    recommends
        0 <= j <= s.len(),
    decreases s.len() - j when 0 <= j <= s.len()
{
    if j >= s.len() {
        None
    } else if s[j] == '"' {
        Some(j)
    } else if s[j] == '\\' {
        if j + 2 <= s.len() {
            str_close(s, j + 2)
        } else {
            None
        }
    } else {
        str_close(s, j + 1)
    }
}

/// Largest index below `e` holding a non-whitespace character, or `-1`.
pub open spec fn last_non_ws(s: Seq<char>, e: int) -> int
    recommends
        0 <= e <= s.len(),
    decreases e when 0 <= e <= s.len()
{
    if e <= 0 {
        -1
    } else if is_json_ws(s[e - 1]) {
        last_non_ws(s, e - 1)
    } else {
        e - 1
    }
}

/// A decimal digit.
pub open spec fn is_digit(c: char) -> bool {
    '0' <= c && c <= '9'
}

/// Numeric value of a digit.
pub open spec fn digit_val(c: char) -> int {
    c as int - '0' as int
}

/// Whether every character of `s` is a decimal digit.
pub open spec fn all_digits(s: Seq<char>) -> bool {
    forall|i: int| 0 <= i < s.len() ==> is_digit(#[trigger] s[i])
}

/// Value of a digit string, most significant digit first.
pub open spec fn digits_val(s: Seq<char>) -> int
    decreases s.len(),
{
    if s.len() == 0 {
        0
    } else {
        digits_val(s.drop_last()) * 10 + digit_val(s.last())
    }
}

/// A version component: a non-empty digit string whose value fits in `u32`.
pub open spec fn parse_u32_spec(s: Seq<char>) -> Option<u32> {
    if s.len() > 0 && all_digits(s) && digits_val(s) <= u32::MAX {
        Some(digits_val(s) as u32)
    } else {
        None
    }
}

/// First index at or after `i` holding `c`, or `None`.
pub open spec fn find_char(s: Seq<char>, c: char, i: int) -> Option<int>
    recommends
        0 <= i <= s.len(),
    decreases s.len() - i when 0 <= i <= s.len()
{
    if i >= s.len() {
        None
    } else if s[i] == c {
        Some(i)
    } else {
        find_char(s, c, i + 1)
    }
}

/// A `major.minor.patch` version string: exactly three dot-separated
/// components, each a `u32` in decimal.
pub open spec fn parse_version_spec(s: Seq<char>) -> Option<ProtocolVersion> {
    match find_char(s, '.', 0) {
        None => None,
        Some(d1) => match find_char(s, '.', d1 + 1) {
            None => None,
            Some(d2) => match (
                parse_u32_spec(s.subrange(0, d1)),
                parse_u32_spec(s.subrange(d1 + 1, d2)),
                parse_u32_spec(s.subrange(d2 + 1, s.len() as int)),
            ) {
                (Some(major), Some(minor), Some(patch)) => Some(
                    ProtocolVersion { major, minor, patch },
                ),
                _ => None,
            },
        },
    }
}

/// The tags that carry a payload in the tagged-object form.
pub open spec fn known_payload_tag(tag: Seq<char>) -> bool {
    ||| tag == "ApiVersion"@
    ||| tag == "SidecarVersion"@
    ||| tag == "BlockAdded"@
    ||| tag == "TransactionAccepted"@
    ||| tag == "TransactionProcessed"@
    ||| tag == "TransactionExpired"@
    ||| tag == "Fault"@
    ||| tag == "FinalitySignature"@
    ||| tag == "Step"@
}

/// The envelope a tagged-object document denotes, given its tag and its
/// trimmed raw payload text; `None` when the document is malformed. The
/// version announcement must carry a quoted version string; the shutdown
/// notice carries no payload, so its tagged form is malformed; every other
/// payload must be one well-formed JSON document.
pub open spec fn envelope_of(tag: Seq<char>, payload: Seq<char>) -> Option<SseDataView> {
    if tag == "ApiVersion"@ {
        if payload.len() >= 2 && payload[0] == '"' && payload[payload.len() - 1] == '"' {
            match parse_version_spec(payload.subrange(1, payload.len() - 1)) {
                Some(v) => Some(SseDataView::ApiVersion(v)),
                None => None,
            }
        } else {
            None
        }
    } else if tag == "Shutdown"@ {
        None
    } else if !json_wf(payload) {
        None
    } else if tag == "SidecarVersion"@ {
        Some(SseDataView::SidecarVersion(EventPayloadView::Json(payload)))
    } else if tag == "BlockAdded"@ {
        Some(SseDataView::BlockAdded(EventPayloadView::Json(payload)))
    } else if tag == "TransactionAccepted"@ {
        Some(SseDataView::TransactionAccepted(EventPayloadView::Json(payload)))
    } else if tag == "TransactionProcessed"@ {
        Some(SseDataView::TransactionProcessed(EventPayloadView::Json(payload)))
    } else if tag == "TransactionExpired"@ {
        Some(SseDataView::TransactionExpired(EventPayloadView::Json(payload)))
    } else if tag == "Fault"@ {
        Some(SseDataView::Fault(EventPayloadView::Json(payload)))
    } else if tag == "FinalitySignature"@ {
        Some(SseDataView::FinalitySignature(EventPayloadView::Json(payload)))
    } else if tag == "Step"@ {
        Some(SseDataView::Step(EventPayloadView::Json(payload)))
    } else {
        Some(SseDataView::Other(tag, Some(EventPayloadView::Json(payload))))
    }
}

/// The envelope a whole wire document denotes, or `None` when it is
/// malformed. A bare string names a payload-less variant: the shutdown
/// notice, or an unknown kind kept as `Other`; a known payload-carrying tag
/// in bare form is malformed. A single-key object names a payload-carrying
/// variant; its payload is the raw text between the colon and the final
/// closing brace, trimmed of surrounding whitespace.
pub open spec fn decode_spec(s: Seq<char>) -> Option<SseDataView> {
    let i = ws_end(s, 0);
    if i >= s.len() {
        None
    } else if s[i] == '"' {
        match str_close(s, i + 1) {
            None => None,
            Some(q) => {
                if ws_end(s, q + 1) < s.len() {
                    None
                } else {
                    let tag = s.subrange(i + 1, q);
                    if tag == "Shutdown"@ {
                        Some(SseDataView::Shutdown)
                    } else if known_payload_tag(tag) {
                        None
                    } else {
                        Some(SseDataView::Other(tag, None))
                    }
                }
            },
        }
    } else if s[i] == '{' {
        let j = ws_end(s, i + 1);
        if j >= s.len() || s[j] != '"' {
            None
        } else {
            match str_close(s, j + 1) {
                None => None,
                Some(q) => {
                    let tag = s.subrange(j + 1, q);
                    let k = ws_end(s, q + 1);
                    if k >= s.len() || s[k] != ':' {
                        None
                    } else {
                        let e = last_non_ws(s, s.len() as int);
                        if e <= k || s[e] != '}' {
                            None
                        } else {
                            let p0 = ws_end(s, k + 1);
                            let p1 = last_non_ws(s, e);
                            if p1 < p0 {
                                None
                            } else {
                                envelope_of(tag, s.subrange(p0, p1 + 1))
                            }
                        }
                    }
                },
            }
        }
    } else {
        None
    }
}

/// Whitespace test matching `is_json_ws`.
fn is_ws_char(c: char) -> (r: bool)
    ensures
        r == is_json_ws(c),
{
    c == ' ' || c == '\t' || c == '\n' || c == '\r'
}

/// Scans past whitespace from `i`; lands on `ws_end`.
fn skip_ws(s: &str, i: usize) -> (j: usize)
    requires
        i <= s@.len(),
    ensures
        j as int == ws_end(s@, i as int),
        i <= j <= s@.len(),
{
    let n = s.unicode_len();
    let mut j = i;
    while j < n && is_ws_char(s.get_char(j))
        invariant
            i <= j <= n,
            n == s@.len(),
            ws_end(s@, i as int) == ws_end(s@, j as int),
        decreases n - j,
    {
        j = j + 1;
    }
    j
}

/// Scans for the closing quote from `start`; lands on `str_close`.
fn find_str_close(s: &str, start: usize) -> (r: Option<usize>)
    requires
        start <= s@.len(),
    ensures
        match r {
            Some(q) => str_close(s@, start as int) == Some(q as int) && start <= q < s@.len(),
            None => str_close(s@, start as int) is None,
        },
{
    let n = s.unicode_len();
    let mut j = start;
    while j < n
        invariant
            start <= j <= n,
            n == s@.len(),
            str_close(s@, start as int) == str_close(s@, j as int),
        decreases n - j,
    {
        let c = s.get_char(j);
        if c == '"' {
            return Some(j);
        }
        if c == '\\' {
            if j < n - 1 {
                j = j + 2;
            } else {
                return None;
            }
        } else {
            j = j + 1;
        }
    }
    None
}

/// Scans backwards from `e` for a non-whitespace character; lands on
/// `last_non_ws`, with `None` standing for its `-1`.
fn find_last_non_ws(s: &str, e: usize) -> (r: Option<usize>)
    requires
        e <= s@.len(),
    ensures
        match r {
            Some(p) => last_non_ws(s@, e as int) == p as int && p < e,
            None => last_non_ws(s@, e as int) == -1,
        },
{
    let mut j = e;
    while j > 0
        invariant
            j <= e <= s@.len(),
            last_non_ws(s@, e as int) == last_non_ws(s@, j as int),
        decreases j,
    {
        let c = s.get_char(j - 1);
        if !is_ws_char(c) {
            return Some(j - 1);
        }
        j = j - 1;
    }
    None
}

/// Character-wise string equality, at the level of the views.
fn str_eq(a: &str, b: &str) -> (r: bool)
    ensures
        r == (a@ == b@),
{
    let na = a.unicode_len();
    let nb = b.unicode_len();
    if na != nb {
        return false;
    }
    let mut i: usize = 0;
    while i < na
        invariant
            i <= na,
            na == a@.len(),
            na == b@.len(),
            forall|k: int| 0 <= k < i ==> a@[k] == b@[k],
        decreases na - i,
    {
        if a.get_char(i) != b.get_char(i) {
            return false;
        }
        i = i + 1;
    }
    proof {
        assert(a@ =~= b@);
    }
    true
}

/// Scans for `c` from `from`; lands on `find_char`.
fn find_char_at(s: &str, c: char, from: usize) -> (r: Option<usize>)
    requires
        from <= s@.len(),
    ensures
        match r {
            Some(p) => find_char(s@, c, from as int) == Some(p as int) && from <= p < s@.len(),
            None => find_char(s@, c, from as int) is None,
        },
{
    let n = s.unicode_len();
    let mut j = from;
    while j < n
        invariant
            from <= j <= n,
            n == s@.len(),
            find_char(s@, c, from as int) == find_char(s@, c, j as int),
        decreases n - j,
    {
        if s.get_char(j) == c {
            return Some(j);
        }
        j = j + 1;
    }
    None
}

/// A digit string's value never shrinks as digits are appended.
proof fn lemma_digits_val_monotone(s: Seq<char>, k: int)
    requires
        all_digits(s),
        0 <= k <= s.len(),
    ensures
        0 <= digits_val(s.subrange(0, k)) <= digits_val(s),
    decreases s.len(),
{
    if s.len() == 0 {
        assert(s.subrange(0, k) =~= s);
    } else if k == s.len() {
        assert(s.subrange(0, k) =~= s);
        lemma_digits_val_monotone(s.drop_last(), s.len() - 1);
        assert(s.drop_last().subrange(0, s.len() - 1) =~= s.drop_last());
    } else {
        assert(s.drop_last().subrange(0, k) =~= s.subrange(0, k));
        lemma_digits_val_monotone(s.drop_last(), k);
        assert(digits_val(s) == digits_val(s.drop_last()) * 10 + digit_val(s.last()));
        assert(digit_val(s.last()) >= 0);
        assert(digits_val(s.drop_last()) * 10 >= digits_val(s.drop_last()));
    }
}

/// Parses a whole string as one `u32` version component; mirrors
/// `parse_u32_spec`.
fn parse_u32_all(t: &str) -> (r: Option<u32>)
    ensures
        r == parse_u32_spec(t@),
{
    let n = t.unicode_len();
    if n == 0 {
        return None;
    }
    let mut acc: u64 = 0;
    let mut i: usize = 0;
    while i < n
        invariant
            i <= n,
            n == t@.len(),
            all_digits(t@.subrange(0, i as int)),
            acc == digits_val(t@.subrange(0, i as int)),
            acc <= u32::MAX,
        decreases n - i,
    {
        let c = t.get_char(i);
        if !(c >= '0' && c <= '9') {
            proof {
                assert(!all_digits(t@));
            }
            return None;
        }
        let d: u64 = ((c as u32) - ('0' as u32)) as u64;
        let acc2: u64 = acc * 10 + d;
        proof {
            let pre = t@.subrange(0, (i + 1) as int);
            assert(pre.drop_last() =~= t@.subrange(0, i as int));
            assert(pre.last() == t@[i as int]);
            assert(all_digits(pre)) by {
                assert(forall|k: int| 0 <= k < i ==> pre[k] == t@.subrange(0, i as int)[k]);
            }
        }
        if acc2 > 0xffff_ffffu64 {
            proof {
                if all_digits(t@) && digits_val(t@) <= u32::MAX {
                    lemma_digits_val_monotone(t@, (i + 1) as int);
                    assert(false);
                }
            }
            return None;
        }
        acc = acc2;
        i = i + 1;
    }
    proof {
        assert(t@.subrange(0, n as int) =~= t@);
    }
    Some(acc as u32)
}

/// Parses a `major.minor.patch` body; mirrors `parse_version_spec`.
fn parse_version(body: &str) -> (r: Option<ProtocolVersion>)
    ensures
        r == parse_version_spec(body@),
{
    let n = body.unicode_len();
    let d1 = match find_char_at(body, '.', 0) {
        Some(d) => d,
        None => {
            return None;
        },
    };
    let d2 = match find_char_at(body, '.', d1 + 1) {
        Some(d) => d,
        None => {
            return None;
        },
    };
    let s1 = body.substring_char(0, d1);
    let s2 = body.substring_char(d1 + 1, d2);
    let s3 = body.substring_char(d2 + 1, n);
    let major = match parse_u32_all(s1) {
        Some(v) => v,
        None => {
            return None;
        },
    };
    let minor = match parse_u32_all(s2) {
        Some(v) => v,
        None => {
            return None;
        },
    };
    let patch = match parse_u32_all(s3) {
        Some(v) => v,
        None => {
            return None;
        },
    };
    Some(ProtocolVersion { major, minor, patch })
}

/// A deserialization fault, for a document the decoder rejects.
fn deser_err() -> (e: ClientError)
    ensures
        e is DeserializationError,
{
    ClientError::DeserializationError("malformed event document".to_owned())
}

/// Mirrors `known_payload_tag`.
fn is_known_payload_tag(tag: &str) -> (r: bool)
    ensures
        r == known_payload_tag(tag@),
{
    str_eq(tag, "ApiVersion") || str_eq(tag, "SidecarVersion") || str_eq(tag, "BlockAdded")
        || str_eq(tag, "TransactionAccepted") || str_eq(tag, "TransactionProcessed") || str_eq(
        tag,
        "TransactionExpired",
    ) || str_eq(tag, "Fault") || str_eq(tag, "FinalitySignature") || str_eq(tag, "Step")
}

/// Builds the envelope of a tagged-object document; mirrors `envelope_of`.
fn build_envelope(tag: &str, payload: &str) -> (r: Result<SseData, ClientError>)
    ensures
        match r {
            Ok(d) => envelope_of(tag@, payload@) == Some(d@),
            Err(e) => envelope_of(tag@, payload@) is None && e is DeserializationError,
        },
{
    if str_eq(tag, "ApiVersion") {
        let n = payload.unicode_len();
        if n < 2 {
            return Err(deser_err());
        }
        if payload.get_char(0) != '"' || payload.get_char(n - 1) != '"' {
            return Err(deser_err());
        }
        let body = payload.substring_char(1, n - 1);
        match parse_version(body) {
            Some(v) => Ok(SseData::ApiVersion(v)),
            None => Err(deser_err()),
        }
    } else if str_eq(tag, "Shutdown") {
        Err(deser_err())
    } else if !json_syntax_ok(payload) {
        Err(deser_err())
    } else {
        let p = EventPayload::Json(payload.to_owned());
        if str_eq(tag, "SidecarVersion") {
            Ok(SseData::SidecarVersion(p))
        } else if str_eq(tag, "BlockAdded") {
            Ok(SseData::BlockAdded(p))
        } else if str_eq(tag, "TransactionAccepted") {
            Ok(SseData::TransactionAccepted(p))
        } else if str_eq(tag, "TransactionProcessed") {
            Ok(SseData::TransactionProcessed(p))
        } else if str_eq(tag, "TransactionExpired") {
            Ok(SseData::TransactionExpired(p))
        } else if str_eq(tag, "Fault") {
            Ok(SseData::Fault(p))
        } else if str_eq(tag, "FinalitySignature") {
            Ok(SseData::FinalitySignature(p))
        } else if str_eq(tag, "Step") {
            Ok(SseData::Step(p))
        } else {
            Ok(SseData::Other(tag.to_owned(), Some(p)))
        }
    }
}

/// Everything before `e` that is not whitespace sits at or after any
/// non-whitespace position, so `last_non_ws` finds it.
proof fn lemma_last_non_ws_ge(s: Seq<char>, e: int, p: int)
    requires
        0 <= p < e <= s.len(),
        !is_json_ws(s[p]),
    ensures
        last_non_ws(s, e) >= p,
    decreases e,
{
    if e - 1 == p {
    } else if is_json_ws(s[e - 1]) {
        lemma_last_non_ws_ge(s, e - 1, p);
    }
}

/// Decodes one wire document into an envelope. Returns the envelope exactly
/// when the document is well formed under `decode_spec`, and a
/// deserialization fault otherwise; no input panics the decoder.
pub fn decode_sse_data(s: &str) -> (r: Result<SseData, ClientError>)
    ensures
        match r {
            Ok(d) => decode_spec(s@) == Some(d@),
            Err(e) => decode_spec(s@) is None && e is DeserializationError,
        },
{
    let n = s.unicode_len();
    let i = skip_ws(s, 0);
    if i >= n {
        return Err(deser_err());
    }
    let c0 = s.get_char(i);
    if c0 == '"' {
        let q = match find_str_close(s, i + 1) {
            Some(q) => q,
            None => {
                return Err(deser_err());
            },
        };
        let t = skip_ws(s, q + 1);
        if t < n {
            return Err(deser_err());
        }
        let tag = s.substring_char(i + 1, q);
        if str_eq(tag, "Shutdown") {
            Ok(SseData::Shutdown)
        } else if is_known_payload_tag(tag) {
            Err(deser_err())
        } else {
            Ok(SseData::Other(tag.to_owned(), None))
        }
    } else if c0 == '{' {
        let j = skip_ws(s, i + 1);
        if j >= n || s.get_char(j) != '"' {
            return Err(deser_err());
        }
        let q = match find_str_close(s, j + 1) {
            Some(q) => q,
            None => {
                return Err(deser_err());
            },
        };
        let tag = s.substring_char(j + 1, q);
        let k = skip_ws(s, q + 1);
        if k >= n || s.get_char(k) != ':' {
            return Err(deser_err());
        }
        let e = match find_last_non_ws(s, n) {
            Some(e) => e,
            None => {
                proof {
                    lemma_last_non_ws_ge(s@, n as int, i as int);
                    assert(false);
                }
                return Err(deser_err());
            },
        };
        if e <= k || s.get_char(e) != '}' {
            return Err(deser_err());
        }
        let p0 = skip_ws(s, k + 1);
        let p1 = match find_last_non_ws(s, e) {
            Some(p1) => p1,
            None => {
                return Err(deser_err());
            },
        };
        if p1 < p0 {
            return Err(deser_err());
        }
        let payload = s.substring_char(p0, p1 + 1);
        build_envelope(tag, payload)
    } else {
        Err(deser_err())
    }
}

} // verus!
