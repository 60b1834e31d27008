//! The WeChat API client's decisions: error envelopes, the token cache, response limits and
//! settings. The requests themselves are made around this library.
use vstd::prelude::*;
use crate::text::{
    chars_of, contains_text, decimal, digit_char, has_sub, lower, lowercase, push_char, push_decimal, push_str,
};

verus! {

/// Responses larger than this many bytes are refused unless configured otherwise.
pub const DEFAULT_MAX_RESPONSE_BYTES: usize = 1048576;

/// The access token is dropped this many seconds before WeChat says it expires.
pub const TOKEN_EARLY_EXPIRY_SECONDS: u64 = 300;

/// An integer in decimal, with a minus sign when negative.
pub open spec fn signed_decimal(i: int) -> Seq<char> {
    if i < 0 {
        seq!['-'] + decimal((-i) as nat)
    } else {
        decimal(i as nat)
    }
}

/// The text of a WeChat error envelope: its code, its message (`unknown error` when absent),
/// and its request id when present.
pub open spec fn wechat_error_text(code: i64, message: Option<Seq<char>>, rid: Option<Seq<char>>) -> Seq<char> {
    let m = match message {
        Some(m) => m,
        None => "unknown error"@,
    };
    match rid {
        Some(r) => "WeChat API error "@ + signed_decimal(code as int) + ": "@ + m + "; rid="@ + r,
        None => "WeChat API error "@ + signed_decimal(code as int) + ": "@ + m,
    }
}

/// The text of an optional string slice.
pub open spec fn opt_text(o: Option<&str>) -> Option<Seq<char>> {
    match o {
        Some(s) => Some(s@),
        None => None,
    }
}

/// Appends `i` in decimal, with a minus sign when negative.
pub fn push_signed(out: &mut String, i: i64)
    ensures
        final(out)@ == old(out)@ + signed_decimal(i as int),
{
    if i < 0 {
        push_char(out, '-');
        let magnitude: u64 = ((-(i + 1)) as u64) + 1;
        push_decimal(out, magnitude);
    } else {
        push_decimal(out, i as u64);
    }
}

/// The error for a WeChat envelope with a non-zero `errcode`.
pub fn wechat_error(code: i64, message: Option<&str>, rid: Option<&str>) -> (e: String)
    ensures
        e@ == wechat_error_text(code, opt_text(message), opt_text(rid)),
{
    let mut e = String::new();
    push_str(&mut e, "WeChat API error ");
    push_signed(&mut e, code);
    push_str(&mut e, ": ");
    match message {
        Some(m) => push_str(&mut e, m),
        None => push_str(&mut e, "unknown error"),
    }
    if let Some(r) = rid {
        push_str(&mut e, "; rid=");
        push_str(&mut e, r);
    }
    proof {
        assert(Seq::<char>::empty() + "WeChat API error "@ =~= "WeChat API error "@);
    }
    e
}

/// Whether an error is WeChat's invalid (40014) or expired (42001) access token, the two that
/// are answered by dropping the cached token and trying once more.
pub open spec fn token_error_text(message: Seq<char>) -> bool {
    has_sub(message, "WeChat API error 40014:"@) || has_sub(message, "WeChat API error 42001:"@)
}

/// Whether an error message reports an invalid or expired access token.
pub fn is_token_error(message: &str) -> (b: bool)
    ensures
        b == token_error_text(message@),
{
    contains_text(message, "WeChat API error 40014:") || contains_text(
        message,
        "WeChat API error 42001:",
    )
}

proof fn lemma_decimal_digits(n: nat)
    ensures
        decimal(n).len() >= 1,
        forall|k: int| 0 <= k < decimal(n).len() ==> is_digit(#[trigger] decimal(n)[k]),
        digits_value(decimal(n)) == n,
    decreases n,
{
    let last = digit_char((n % 10) as nat);
    assert((last as u32) == 48 + n % 10);
    if n < 10 {
        let d = decimal(n);
        assert(d.drop_last() =~= Seq::<char>::empty());
        assert(d.last() == last);
        assert(digits_value(d) == digits_value(Seq::<char>::empty()) * 10 + ((last as u32) - 48) as nat);
        assert(digits_value(Seq::<char>::empty()) == 0);
    } else {
        lemma_decimal_digits(n / 10);
        let d = decimal(n);
        assert(d.drop_last() =~= decimal(n / 10));
        assert(d.last() == last);
        assert(n == (n / 10) * 10 + n % 10);
        assert(digits_value(d) == digits_value(decimal(n / 10)) * 10 + ((last as u32) - 48) as nat);
        assert(((last as u32) - 48) as nat == n % 10);
        assert(digits_value(decimal(n / 10)) == n / 10);
        assert forall|k: int| 0 <= k < d.len() implies is_digit(#[trigger] d[k]) by {
            if k < d.len() - 1 {
                assert(d[k] == decimal(n / 10)[k]);
            }
        }
    }
}

proof fn lemma_signed_decimal_chars(i: int)
    ensures
        signed_decimal(i).len() >= 1,
        forall|k: int|
            0 <= k < signed_decimal(i).len() ==> is_digit(#[trigger] signed_decimal(i)[k])
                || signed_decimal(i)[k] == '-',
        is_digit(signed_decimal(i)[0]) ==> i >= 0 && signed_decimal(i) == decimal(i as nat),
{
    if i < 0 {
        lemma_decimal_digits((-i) as nat);
        let d = decimal((-i) as nat);
        assert forall|k: int| 0 < k < signed_decimal(i).len() implies is_digit(
            #[trigger] signed_decimal(i)[k],
        ) by {
            assert(signed_decimal(i)[k] == d[k - 1]);
        }
    } else {
        lemma_decimal_digits(i as nat);
    }
}

/// The part of a formatted WeChat error after its message: the request id, when present.
spec fn rid_part(rid: Option<Seq<char>>) -> Seq<char> {
    match rid {
        Some(r) => "; rid="@ + r,
        None => Seq::empty(),
    }
}

/// In `front + m + rid_part(rid)`, where neither the message nor the request id holds the
/// envelope's prefix, the prefix can start only within `front`.
proof fn lemma_prefix_not_in_tail(front: Seq<char>, m: Seq<char>, rid: Option<Seq<char>>, i: int)
    requires
        !has_sub(m, "WeChat API error "@),
        match rid {
            Some(r) => !has_sub(r, "WeChat API error "@),
            None => true,
        },
        0 <= i,
        i + 17 <= (front + m + rid_part(rid)).len(),
        (front + m + rid_part(rid)).subrange(i, i + 17) == "WeChat API error "@,
    ensures
        i < front.len(),
{
    reveal_strlit("WeChat API error ");
    reveal_strlit("; rid=");
    let p = "WeChat API error "@;
    let t = front + m + rid_part(rid);
    let e: int = front.len() + m.len() as int;
    assert(t[i] == 'W') by {
        assert(t.subrange(i, i + 17)[0] == p[0]);
    }
    if i < front.len() {
    } else if i < e {
        if i + 17 <= e {
            assert(m.subrange(i - front.len(), i - front.len() + 17) =~= t.subrange(i, i + 17));
            assert(has_sub(m, p));
        } else {
            let k: int = e - i;
            assert(rid_part(rid).len() > 0);
            assert(t[e] == ';');
            assert(t.subrange(i, i + 17)[k] == t[e]);
            assert(p[k] != ';');
        }
    } else {
        let r = rid->0;
        if i < e + 6 {
            assert(t[i] == "; rid="@[i - e]);
        } else {
            assert(r.subrange(i - e - 6, i - e - 6 + 17) =~= t.subrange(i, i + 17));
            assert(has_sub(r, p));
        }
    }
}

/// In a formatted WeChat error whose message and request id do not hold the envelope's prefix,
/// that prefix occurs only at the start.
proof fn lemma_prefix_only_at_start(code: i64, m: Seq<char>, rid: Option<Seq<char>>, i: int)
    requires
        !has_sub(m, "WeChat API error "@),
        match rid {
            Some(r) => !has_sub(r, "WeChat API error "@),
            None => true,
        },
        0 <= i,
        i + "WeChat API error "@.len() <= wechat_error_text(code, Some(m), rid).len(),
        wechat_error_text(code, Some(m), rid).subrange(i, i + "WeChat API error "@.len())
            == "WeChat API error "@,
    ensures
        i == 0,
{
    reveal_strlit("WeChat API error ");
    reveal_strlit(": ");
    let p = "WeChat API error "@;
    let sd = signed_decimal(code as int);
    lemma_signed_decimal_chars(code as int);
    let front = p + sd + ": "@;
    let t = wechat_error_text(code, Some(m), rid);
    assert(t =~= front + m + rid_part(rid));
    if i >= front.len() {
        lemma_prefix_not_in_tail(front, m, rid, i);
    } else if i > 0 {
        assert(t[i] == 'W') by {
            assert(t.subrange(i, i + 17)[0] == p[0]);
        }
        assert(t[i] == front[i]);
        if i < 17 {
            assert(front[i] == p[i]);
        } else if i < 17 + sd.len() {
            assert(front[i] == sd[i - 17]);
        } else {
            assert(front[i] == ": "@[i - 17 - sd.len()]);
        }
    }
}

/// A formatted WeChat error holds `WeChat API error <n>:` exactly when its code is `n`.
proof fn lemma_code_marker(code: i64, m: Seq<char>, rid: Option<Seq<char>>, n: nat)
    requires
        !has_sub(m, "WeChat API error "@),
        match rid {
            Some(r) => !has_sub(r, "WeChat API error "@),
            None => true,
        },
    ensures
        has_sub(wechat_error_text(code, Some(m), rid), "WeChat API error "@ + decimal(n) + ":"@)
            == (code == n),
{
    reveal_strlit("WeChat API error ");
    reveal_strlit(":");
    reveal_strlit(": ");
    let p = "WeChat API error "@;
    let dn = decimal(n);
    let q = p + dn + ":"@;
    let sd = signed_decimal(code as int);
    let t = wechat_error_text(code, Some(m), rid);
    lemma_decimal_digits(n);
    lemma_signed_decimal_chars(code as int);
    let head = p + sd + ": "@ + m;
    assert(t.subrange(0, head.len() as int) =~= head);
    if code == n {
        assert(sd == dn);
        assert(t.subrange(0, q.len() as int) =~= q);
        assert(t.subrange(0, 0 + q.len() as int) == q);
    }
    if has_sub(t, q) {
        let i = choose|i: int| 0 <= i <= t.len() - q.len() && #[trigger] t.subrange(i, i + q.len()) == q;
        assert(t.subrange(i, i + 17) =~= q.subrange(0, 17));
        assert(q.subrange(0, 17) =~= p);
        lemma_prefix_only_at_start(code, m, rid, i);
        assert(t.subrange(0, q.len() as int) == q);
        if sd.len() < dn.len() {
            let k: int = 17 + sd.len() as int;
            assert(t[k] == head[k]);
            assert(t[k] == ':');
            assert(q[k] == dn[k - 17]);
            assert(is_digit(dn[k - 17]));
        } else if sd.len() > dn.len() {
            let k: int = 17 + dn.len() as int;
            assert(t[k] == head[k]);
            assert(t[k] == sd[k - 17]);
            assert(q[k] == ':');
        }
        assert(sd =~= dn) by {
            assert forall|k: int| 0 <= k < sd.len() implies sd[k] == dn[k] by {
                assert(t[17 + k] == head[17 + k]);
                assert(q[17 + k] == dn[k]);
            }
        }
        assert(is_digit(sd[0]));
        lemma_decimal_digits(code as nat);
    }
}

/// A formatted WeChat error reports an invalid or expired access token exactly when its code is
/// 40014 or 42001, whatever its message and request id, as long as neither of those itself
/// holds the text `WeChat API error `.
pub proof fn lemma_token_error_codes(code: i64, message: Option<Seq<char>>, rid: Option<Seq<char>>)
    requires
        match message {
            Some(m) => !has_sub(m, "WeChat API error "@),
            None => true,
        },
        match rid {
            Some(r) => !has_sub(r, "WeChat API error "@),
            None => true,
        },
    ensures
        token_error_text(wechat_error_text(code, message, rid)) == (code == 40014 || code == 42001),
{
    reveal_strlit("WeChat API error ");
    reveal_strlit("unknown error");
    reveal_strlit(":");
    reveal_strlit("WeChat API error 40014:");
    reveal_strlit("WeChat API error 42001:");
    let m = match message {
        Some(m) => m,
        None => "unknown error"@,
    };
    assert(wechat_error_text(code, message, rid) == wechat_error_text(code, Some(m), rid));
    lemma_code_marker(code, m, rid, 40014);
    lemma_code_marker(code, m, rid, 42001);
    assert(decimal(40014) =~= seq!['4', '0', '0', '1', '4']) by {
        reveal_with_fuel(decimal, 6);
    }
    assert(decimal(42001) =~= seq!['4', '2', '0', '0', '1']) by {
        reveal_with_fuel(decimal, 6);
    }
    assert("WeChat API error 40014:"@ =~= "WeChat API error "@ + decimal(40014) + ":"@);
    assert("WeChat API error 42001:"@ =~= "WeChat API error "@ + decimal(42001) + ":"@);
}

/// The error that a decoded WeChat response stands for: present exactly when it has a
/// non-zero `errcode`.
pub fn api_error(errcode: Option<i64>, errmsg: Option<&str>, rid: Option<&str>) -> (e: Option<String>)
    ensures
        match errcode {
            Some(code) if code != 0 => e matches Some(t) && t@ == wechat_error_text(
                code,
                opt_text(errmsg),
                opt_text(rid),
            ),
            _ => e is None,
        },
{
    match errcode {
        Some(code) => if code != 0 {
            Some(wechat_error(code, errmsg, rid))
        } else {
            None
        },
        None => None,
    }
}

/// The fields of a stable-token response.
#[derive(Debug, Clone)]
pub struct TokenResponse {
    pub access_token: Option<String>,
    pub expires_in: Option<u64>,
    pub errcode: Option<i64>,
    pub errmsg: Option<String>,
    pub rid: Option<String>,
}

/// The text of an optional string.
pub open spec fn opt_string(o: Option<String>) -> Option<Seq<char>> {
    match o {
        Some(s) => Some(s@),
        None => None,
    }
}

/// What a stable-token response gives: its error envelope, else the token and its lifetime
/// in seconds, or the field that is missing.
pub open spec fn token_outcome(r: TokenResponse) -> Result<(Seq<char>, u64), Seq<char>> {
    if r.errcode is Some && r.errcode->0 != 0 {
        Err(wechat_error_text(r.errcode->0, opt_string(r.errmsg), opt_string(r.rid)))
    } else if r.access_token is None || r.access_token->0@.len() == 0 {
        Err("WeChat stable-token response is missing access_token"@)
    } else if r.expires_in is None {
        Err("WeChat stable-token response is missing expires_in"@)
    } else {
        Ok((r.access_token->0@, r.expires_in->0))
    }
}

fn opt_as_str(o: &Option<String>) -> (r: Option<&str>)
    ensures
        opt_text(r) == opt_string(*o),
{
    match o {
        Some(s) => Some(s.as_str()),
        None => None,
    }
}

fn message(text: &str) -> (s: String)
    ensures
        s@ == text@,
{
    let mut s = String::new();
    push_str(&mut s, text);
    proof {
        assert(Seq::<char>::empty() + text@ =~= text@);
    }
    s
}

/// Reads a stable-token response: the token and its lifetime in seconds, or the error.
pub fn token_from_response(r: &TokenResponse) -> (out: Result<(String, u64), String>)
    ensures
        match token_outcome(*r) {
            Ok((token, expires_in)) => out matches Ok((t, e)) && t@ == token && e == expires_in,
            Err(e) => out matches Err(m) && m@ == e,
        },
{
    if let Some(e) = api_error(r.errcode, opt_as_str(&r.errmsg), opt_as_str(&r.rid)) {
        return Err(e);
    }
    let token = match &r.access_token {
        Some(t) => if t.as_str().is_empty() {
            return Err(message("WeChat stable-token response is missing access_token"));
        } else {
            t.clone()
        },
        None => return Err(message("WeChat stable-token response is missing access_token")),
    };
    match r.expires_in {
        Some(e) => Ok((token, e)),
        None => Err(message("WeChat stable-token response is missing expires_in")),
    }
}

/// How long a token is kept, in seconds: five minutes less than its lifetime, at least one.
pub open spec fn cache_seconds_spec(expires_in: u64) -> u64 {
    if expires_in > 301 {
        (expires_in - 300) as u64
    } else {
        1
    }
}

/// How long a token is kept, in seconds: five minutes less than its lifetime, at least one.
pub fn cache_seconds(expires_in: u64) -> (s: u64)
    ensures
        s == cache_seconds_spec(expires_in),
{
    let s = expires_in.saturating_sub(TOKEN_EARLY_EXPIRY_SECONDS);
    if s > 1 {
        s
    } else {
        1
    }
}

/// When a token stored at `now_ms` with lifetime `expires_in` stops being used, in
/// milliseconds on the same clock (saturating at the clock's end).
pub open spec fn valid_until_spec(now_ms: u64, expires_in: u64) -> u64 {
    let until = now_ms + cache_seconds_spec(expires_in) * 1000;
    if until > u64::MAX {
        u64::MAX
    } else {
        until as u64
    }
}

/// The access token held in memory with the time it stops being used.
pub struct CachedToken {
    value: String,
    valid_until_ms: u64,
}

/// The process's access-token cache. Time is given in milliseconds on a monotonic clock.
pub struct TokenCache {
    cached: Option<CachedToken>,
}

impl View for TokenCache {
    type V = Option<(Seq<char>, u64)>;

    closed spec fn view(&self) -> Option<(Seq<char>, u64)> {
        match self.cached {
            Some(c) => Some((c.value@, c.valid_until_ms)),
            None => None,
        }
    }
}

/// The token a cache in state `cache` hands out at `now_ms`: the stored one while it is valid.
pub open spec fn cached_at(cache: Option<(Seq<char>, u64)>, now_ms: u64) -> Option<Seq<char>> {
    match cache {
        Some((value, until)) => if until > now_ms {
            Some(value)
        } else {
            None
        },
        None => None,
    }
}

impl TokenCache {
    /// An empty cache.
    pub fn new() -> (c: Self)
        ensures
            c@ is None,
    {
        TokenCache { cached: None }
    }

    /// The cached token, if it is still valid at `now_ms`.
    pub fn current(&self, now_ms: u64) -> (t: Option<String>)
        ensures
            opt_string(t) == cached_at(self@, now_ms),
    {
        match &self.cached {
            Some(c) => if c.valid_until_ms > now_ms {
                Some(c.value.clone())
            } else {
                None
            },
            None => None,
        }
    }

    /// Keeps `value`, obtained at `now_ms` with lifetime `expires_in` seconds.
    pub fn store(&mut self, value: String, expires_in: u64, now_ms: u64)
        ensures
            final(self)@ == Some((value@, valid_until_spec(now_ms, expires_in))),
    {
        let seconds = cache_seconds(expires_in);
        let until = if seconds > (u64::MAX - now_ms) / 1000 {
            u64::MAX
        } else {
            now_ms + seconds * 1000
        };
        assert(until == valid_until_spec(now_ms, expires_in)) by (nonlinear_arith)
            requires
                seconds == cache_seconds_spec(expires_in),
                seconds > (u64::MAX - now_ms) / 1000 ==> until == u64::MAX,
                seconds <= (u64::MAX - now_ms) / 1000 ==> until == now_ms + seconds * 1000,
        ;
        self.cached = Some(CachedToken { value, valid_until_ms: until });
    }

    /// Drops the cached token.
    pub fn invalidate(&mut self)
        ensures
            final(self)@ is None,
    {
        self.cached = None;
    }
}

/// A token stored in the cache is handed out, unchanged, at every moment before its validity
/// ends, which is five minutes (at least one second) short of its lifetime, and never after.
pub proof fn lemma_cache_read_after_store(value: Seq<char>, expires_in: u64, stored_ms: u64, now_ms: u64)
    requires
        stored_ms + cache_seconds_spec(expires_in) * 1000 <= u64::MAX,
    ensures
        cached_at(Some((value, valid_until_spec(stored_ms, expires_in))), now_ms) == if now_ms
            < stored_ms + cache_seconds_spec(expires_in) * 1000 {
            Some(value)
        } else {
            None
        },
        expires_in > 301 ==> cache_seconds_spec(expires_in) == expires_in - 300,
        cache_seconds_spec(expires_in) >= 1,
{
}

/// The reason phrase that `StatusCode::canonical_reason` gives for the HTTP status `code`,
/// if the code has one.
pub uninterp spec fn canonical_reason(code: u16) -> Option<Seq<char>>;

/// `reqwest::StatusCode::canonical_reason` (http's `StatusCode`) for the status `code`, which is
/// one that `StatusCode::from_u16` accepts (100 to 999). Its result is the name
/// `canonical_reason` of the code.
#[verifier::external_body]
fn status_reason(code: u16) -> (r: Option<&'static str>)
    requires
        100 <= code <= 999,
    ensures
        match r {
            Some(t) => canonical_reason(code) == Some(t@),
            None => canonical_reason(code) is None,
        },
{
    match reqwest::StatusCode::from_u16(code) {
        Ok(status) => status.canonical_reason(),
        Err(_) => None,
    }
}

/// Whether an HTTP status is a success: 200 to 299, as `StatusCode::is_success` says.
pub fn is_success_status(code: u16) -> (b: bool)
    ensures
        b == (200 <= code < 300),
{
    200 <= code && code < 300
}

/// How an HTTP status is displayed: its code and its reason phrase, or
/// `<unknown status code>` when it has none.
pub open spec fn status_text(code: u16) -> Seq<char> {
    decimal(code as nat) + " "@ + match canonical_reason(code) {
        Some(reason) => reason,
        None => "<unknown status code>"@,
    }
}

/// The error for a response with the non-success HTTP status `code`, whose body reads as the
/// JSON text `detail`.
pub fn http_status_message(code: u16, detail: &str) -> (m: String)
    requires
        100 <= code <= 999,
    ensures
        m@ == "WeChat API returned HTTP "@ + status_text(code) + ": "@ + detail@,
{
    let mut m = String::new();
    push_str(&mut m, "WeChat API returned HTTP ");
    push_decimal(&mut m, code as u64);
    push_str(&mut m, " ");
    match status_reason(code) {
        Some(reason) => push_str(&mut m, reason),
        None => push_str(&mut m, "<unknown status code>"),
    }
    push_str(&mut m, ": ");
    push_str(&mut m, detail);
    proof {
        assert(Seq::<char>::empty() + "WeChat API returned HTTP "@ =~= "WeChat API returned HTTP "@);
    }
    m
}

/// The error for a response whose declared length is over the limit, if it is.
pub fn declared_length_error(content_length: Option<u64>, max_response_bytes: usize) -> (e: Option<String>)
    ensures
        match content_length {
            Some(length) if length > max_response_bytes => e matches Some(m) && m@
                == "WeChat response is "@ + decimal(length as nat) + " bytes, exceeding the configured "@
                + decimal(max_response_bytes as nat) + " byte limit"@,
            _ => e is None,
        },
{
    match content_length {
        Some(length) => if length > max_response_bytes as u64 {
            let mut m = String::new();
            push_str(&mut m, "WeChat response is ");
            push_decimal(&mut m, length);
            push_str(&mut m, " bytes, exceeding the configured ");
            push_decimal(&mut m, max_response_bytes as u64);
            push_str(&mut m, " byte limit");
            proof {
                assert(Seq::<char>::empty() + "WeChat response is "@ =~= "WeChat response is "@);
            }
            Some(m)
        } else {
            None
        },
        None => None,
    }
}

/// The error for a response body longer than the limit, if it is.
pub fn body_length_error(length: usize, max_response_bytes: usize) -> (e: Option<String>)
    ensures
        length > max_response_bytes ==> (e matches Some(m) && m@
            == "WeChat response exceeds the configured "@ + decimal(max_response_bytes as nat)
            + " byte limit"@),
        length <= max_response_bytes ==> e is None,
{
    if length > max_response_bytes {
        let mut m = String::new();
        push_str(&mut m, "WeChat response exceeds the configured ");
        push_decimal(&mut m, max_response_bytes as u64);
        push_str(&mut m, " byte limit");
        proof {
            assert(Seq::<char>::empty() + "WeChat response exceeds the configured "@
                =~= "WeChat response exceeds the configured "@);
        }
        Some(m)
    } else {
        None
    }
}

/// A JSON value as serde_json holds it (`serde_json::Value`).
#[verifier::external_type_specification]
#[verifier::external_body]
pub struct ExJsonValue(serde_json::Value);

/// The JSON text that a response body stands for: the body read by `serde_json::from_slice`,
/// or, when it is not JSON, the body as lossy UTF-8 text taken as a JSON string; written out
/// by `serde_json::to_string`.
pub uninterp spec fn body_json_text(body: Seq<u8>) -> Seq<char>;

/// `serde_json::from_slice` of a response body into a `serde_json::Value`, or, when the body
/// is not JSON, `Value::String` of `String::from_utf8_lossy` of it. Nothing is stated of the
/// value: Verus sees into no `serde_json::Value`.
#[verifier::external_body]
fn body_value(body: &[u8]) -> serde_json::Value {
    match serde_json::from_slice(body) {
        Ok(value) => value,
        Err(_) => serde_json::Value::String(String::from_utf8_lossy(body).into_owned()),
    }
}

/// The value that `body_value` reads from a response body, written out by
/// `serde_json::to_string` (`unknown error` if writing fails, which it does not for a value
/// read from JSON). The text is the name `body_json_text` of the body.
#[verifier::external_body]
fn body_json(body: &[u8]) -> (t: String)
    ensures
        t@ == body_json_text(body@),
{
    let value: serde_json::Value = match serde_json::from_slice(body) {
        Ok(value) => value,
        Err(_) => serde_json::Value::String(String::from_utf8_lossy(body).into_owned()),
    };
    match serde_json::to_string(&value) {
        Ok(text) => text,
        Err(_) => String::from("unknown error"),
    }
}

/// The error of a response whose body was read: a body over the limit, else a non-success
/// status shown with the body as JSON text.
pub open spec fn response_error(status: u16, body: Seq<u8>, max_response_bytes: usize) -> Option<Seq<char>> {
    if body.len() > max_response_bytes {
        Some("WeChat response exceeds the configured "@ + decimal(max_response_bytes as nat)
            + " byte limit"@)
    } else if !(200 <= status < 300) {
        Some("WeChat API returned HTTP "@ + status_text(status) + ": "@ + body_json_text(body))
    } else {
        None
    }
}

/// The error of a response whose body was read: over the limit, else a non-success status.
pub fn read_response_error(status: u16, body: &[u8], max_response_bytes: usize) -> (e: Option<String>)
    requires
        100 <= status <= 999,
    ensures
        body@.len() > max_response_bytes ==> (e matches Some(m) && m@
            == "WeChat response exceeds the configured "@ + decimal(max_response_bytes as nat)
            + " byte limit"@),
        body@.len() <= max_response_bytes && !(200 <= status < 300) ==> (e matches Some(m) && m@
            == "WeChat API returned HTTP "@ + status_text(status) + ": "@ + body_json_text(body@)),
        body@.len() <= max_response_bytes && 200 <= status < 300 ==> e is None,
{
    if let Some(m) = body_length_error(body.len(), max_response_bytes) {
        return Some(m);
    }
    if is_success_status(status) {
        None
    } else {
        let detail = body_json(body);
        Some(http_status_message(status, detail.as_str()))
    }
}

/// Decodes a response whose body was read: the error of `response_error`, else the body as a
/// JSON value (the body's lossy UTF-8 text as a JSON string when it is not JSON).
pub fn decode_response(status: u16, body: &[u8], max_response_bytes: usize) -> (r: Result<serde_json::Value, String>)
    requires
        100 <= status <= 999,
    ensures
        match response_error(status, body@, max_response_bytes) {
            Some(m) => r matches Err(e) && e@ == m,
            None => r is Ok,
        },
        r is Ok <==> (body@.len() <= max_response_bytes && 200 <= status < 300),
{
    match read_response_error(status, body, max_response_bytes) {
        Some(e) => Err(e),
        None => Ok(body_value(body)),
    }
}

/// A response whose body was read is accepted exactly when its body is within the limit and
/// its status is a success (200 to 299): any other status, 1xx, 3xx, 4xx or 5xx alike, is an
/// error that names the status code.
pub proof fn lemma_response_accepted(status: u16, body: Seq<u8>, max_response_bytes: usize)
    ensures
        (response_error(status, body, max_response_bytes) is None) <==> (body.len()
            <= max_response_bytes && 200 <= status < 300),
        body.len() <= max_response_bytes && !(200 <= status < 300) ==> (response_error(
            status,
            body,
            max_response_bytes,
        ) matches Some(m) && m.subrange(0, 25 + decimal(status as nat).len() as int)
            == "WeChat API returned HTTP "@ + decimal(status as nat)),
{
    reveal_strlit("WeChat API returned HTTP ");
    if body.len() <= max_response_bytes && !(200 <= status < 300) {
        let m = response_error(status, body, max_response_bytes)->0;
        let head = "WeChat API returned HTTP "@ + decimal(status as nat);
        assert(m.subrange(0, head.len() as int) =~= head);
    }
}

/// The value of the decimal digits `s`.
pub open spec fn digits_value(s: Seq<char>) -> nat
    decreases s.len(),
{
    if s.len() == 0 {
        0
    } else {
        digits_value(s.drop_last()) * 10 + ((s.last() as u32) - 48) as nat
    }
}

/// Whether `c` is an ASCII decimal digit.
pub open spec fn is_digit(c: char) -> bool {
    '0' <= c && c <= '9'
}

/// The text after an optional leading `+`.
pub open spec fn unsigned_digits(s: Seq<char>) -> Seq<char> {
    if s.len() > 0 && s[0] == '+' {
        s.drop_first()
    } else {
        s
    }
}

/// What `str::parse::<usize>` gives: an optional `+`, then one or more decimal digits whose
/// value fits in `usize`.
pub open spec fn parse_usize_spec(s: Seq<char>) -> Option<usize> {
    let digits = unsigned_digits(s);
    if digits.len() > 0 && (forall|i: int| 0 <= i < digits.len() ==> is_digit(#[trigger] digits[i]))
        && digits_value(digits) <= usize::MAX {
        Some(digits_value(digits) as usize)
    } else {
        None
    }
}

proof fn lemma_digits_value_mono(s: Seq<char>, i: int)
    requires
        0 <= i <= s.len(),
        forall|k: int| 0 <= k < s.len() ==> is_digit(#[trigger] s[k]),
    ensures
        digits_value(s.take(i)) <= digits_value(s),
    decreases s.len() - i,
{
    if i < s.len() {
        lemma_digits_value_mono(s, i + 1);
        assert(s.take(i + 1).drop_last() == s.take(i));
        assert(digits_value(s.take(i + 1)) == digits_value(s.take(i)) * 10 + ((s[i] as u32) - 48) as nat);
    } else {
        assert(s.take(i) == s);
    }
}

/// Parses a setting as `str::parse::<usize>` does.
pub fn parse_usize(s: &str) -> (r: Option<usize>)
    ensures
        r == parse_usize_spec(s@),
{
    let v = chars_of(s);
    let start: usize = if v.len() > 0 && v[0] == '+' {
        1
    } else {
        0
    };
    let ghost digits = unsigned_digits(s@);
    assert(digits == v@.skip(start as int));
    if start == v.len() {
        return None;
    }
    let mut value: usize = 0;
    let mut i = start;
    while i < v.len()
        invariant
            start <= i <= v@.len(),
            start < v@.len(),
            v@ == s@,
            digits == unsigned_digits(s@),
            digits == v@.skip(start as int),
            forall|k: int| 0 <= k < i - start ==> is_digit(#[trigger] digits[k]),
            value == digits_value(digits.take(i - start)),
        decreases v.len() - i,
    {
        let c = v[i];
        if !('0' <= c && c <= '9') {
            assert(!is_digit(digits[i - start]));
            return None;
        }
        let d = (c as u32 - 48) as usize;
        assert(digits.take(i - start + 1).drop_last() == digits.take(i - start));
        assert(digits[i - start] == c);
        if value > (usize::MAX - d) / 10 {
            proof {
                assert(digits_value(digits.take(i - start + 1)) > usize::MAX) by (nonlinear_arith)
                    requires
                        value > (usize::MAX - d) / 10,
                        digits_value(digits.take(i - start + 1)) == value * 10 + d,
                        d <= 9,
                ;
                if forall|k: int| 0 <= k < digits.len() ==> is_digit(#[trigger] digits[k]) {
                    lemma_digits_value_mono(digits, i - start + 1);
                }
            }
            return None;
        }
        value = value * 10 + d;
        i = i + 1;
    }
    assert(digits.take(digits.len() as int) == digits);
    Some(value)
}

/// What a positive integer setting gives: its default when unset, else its value, or the
/// error when it is not an integer or is zero.
pub open spec fn positive_setting_outcome(name: Seq<char>, value: Option<Seq<char>>, default: usize) -> Result<usize, Seq<char>> {
    let parsed = match value {
        Some(v) => parse_usize_spec(v),
        None => Some(default),
    };
    match parsed {
        None => Err(name + " must be a positive integer"@),
        Some(n) => if n == 0 {
            Err(name + " must be greater than zero"@)
        } else {
            Ok(n)
        },
    }
}

/// Reads a positive integer setting such as `WECHAT_MAX_RESPONSE_BYTES`.
pub fn positive_usize_setting(name: &str, value: Option<&str>, default: usize) -> (r: Result<usize, String>)
    ensures
        match positive_setting_outcome(name@, opt_text(value), default) {
            Ok(n) => r == Ok::<usize, String>(n),
            Err(e) => r matches Err(m) && m@ == e,
        },
{
    let parsed = match value {
        Some(v) => parse_usize(v),
        None => Some(default),
    };
    match parsed {
        None => {
            let mut m = String::new();
            push_str(&mut m, name);
            push_str(&mut m, " must be a positive integer");
            proof {
                assert(Seq::<char>::empty() + name@ =~= name@);
            }
            Err(m)
        },
        Some(n) => if n == 0 {
            let mut m = String::new();
            push_str(&mut m, name);
            push_str(&mut m, " must be greater than zero");
            proof {
                assert(Seq::<char>::empty() + name@ =~= name@);
            }
            Err(m)
        } else {
            Ok(n)
        },
    }
}

/// Whether a flag setting is on: `1`, `true` or `yes`, in any ASCII case.
pub open spec fn flag_on(value: Option<Seq<char>>) -> bool {
    match value {
        Some(v) => lower(v) == "1"@ || lower(v) == "true"@ || lower(v) == "yes"@,
        None => false,
    }
}

/// Whether a flag setting such as `WECHAT_ALLOW_WRITE` is on.
pub fn flag_enabled(value: Option<&str>) -> (b: bool)
    ensures
        b == flag_on(opt_text(value)),
{
    match value {
        Some(v) => {
            let l = lowercase(v);
            crate::text::chars_equal(&l, &chars_of("1")) || crate::text::chars_equal(
                &l,
                &chars_of("true"),
            ) || crate::text::chars_equal(&l, &chars_of("yes"))
        },
        None => false,
    }
}

/// `s` without the slashes at its end.
pub open spec fn trim_slashes_end(s: Seq<char>) -> Seq<char>
    decreases s.len(),
{
    if s.len() > 0 && s.last() == '/' {
        trim_slashes_end(s.drop_last())
    } else {
        s
    }
}

/// The API base URL without trailing slashes, as `trim_end_matches('/')` gives it.
pub fn base_url(url: &str) -> (r: String)
    ensures
        r@ == trim_slashes_end(url@),
{
    let v = chars_of(url);
    let mut j = v.len();
    assert(v@.take(v@.len() as int) == v@);
    while j > 0 && v[j - 1] == '/'
        invariant
            j <= v@.len(),
            trim_slashes_end(v@) == trim_slashes_end(v@.take(j as int)),
        decreases j,
    {
        assert(v@.take(j as int).drop_last() == v@.take(j - 1));
        j = j - 1;
    }
    assert(v@.take(v@.len() as int) == v@);
    let mut r = String::new();
    crate::text::push_range(&mut r, &v, 0, j);
    proof {
        assert(Seq::<char>::empty() + v@.subrange(0, j as int) =~= v@.take(j as int));
    }
    r
}

/// What a request does after an attempt.
#[derive(Debug, Clone, Copy, PartialEq, Eq)]
pub enum AttemptDecision {
    /// The attempt's outcome is the request's outcome.
    Finish,
    /// Drop the cached token, fetch a fresh one and send the request again.
    InvalidateAndRetry,
}

/// What comes after attempt number `attempt` (counted from zero) of a request whose error is
/// `error`: a retry exactly when the first attempt failed for the token.
pub open spec fn attempt_decision(attempt: u32, error: Option<Seq<char>>) -> AttemptDecision {
    if attempt == 0 && error is Some && token_error_text(error->0) {
        AttemptDecision::InvalidateAndRetry
    } else {
        AttemptDecision::Finish
    }
}

/// What comes after attempt number `attempt` (counted from zero) of a WeChat request that
/// failed with `error`, or succeeded when `error` is `None`: only a first attempt that WeChat
/// refused for its token is sent again.
pub fn after_attempt(attempt: u32, error: Option<&str>) -> (d: AttemptDecision)
    ensures
        d == attempt_decision(attempt, opt_text(error)),
{
    match error {
        Some(message) => if attempt == 0 && is_token_error(message) {
            AttemptDecision::InvalidateAndRetry
        } else {
            AttemptDecision::Finish
        },
        None => AttemptDecision::Finish,
    }
}

/// After a first attempt that failed with a formatted WeChat error, the cached token is dropped
/// and the request sent again exactly when the error's code is 40014 (invalid token) or 42001
/// (expired token), provided its message and request id do not themselves hold the text
/// `WeChat API error `; an attempt that succeeded is never sent again.
pub proof fn lemma_first_attempt_retry(code: i64, message: Option<Seq<char>>, rid: Option<Seq<char>>, attempt: u32)
    requires
        match message {
            Some(m) => !has_sub(m, "WeChat API error "@),
            None => true,
        },
        match rid {
            Some(r) => !has_sub(r, "WeChat API error "@),
            None => true,
        },
    ensures
        (attempt_decision(0, Some(wechat_error_text(code, message, rid)))
            == AttemptDecision::InvalidateAndRetry) <==> (code == 40014 || code == 42001),
        attempt_decision(attempt, None) == AttemptDecision::Finish,
{
    lemma_token_error_codes(code, message, rid);
}

/// A request is sent at most twice: the attempt after a retry always finishes.
pub proof fn lemma_at_most_one_retry(attempt: u32, error: Option<Seq<char>>)
    requires
        attempt >= 1,
    ensures
        attempt_decision(attempt, error) == AttemptDecision::Finish,
{
}

} // verus!
