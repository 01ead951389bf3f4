//! The settings of the layers that stand in front of the handlers: rate
//! limits, request ids and the security policy. The layers themselves are the
//! caller's; this module says what they are set to.

use vstd::prelude::*;

verus! {

/// The header that carries the id of a request.
pub const REQUEST_ID_HEADER: &'static str = "x-request-id";

/// The largest request body that is accepted, in bytes.
pub const BODY_LIMIT: usize = 1_048_576;

/// The time after which a request is given up, in seconds.
pub const TIMEOUT_SECONDS: u64 = 30;

/// The time for which a browser may remember the answer to a preflight
/// request, in seconds.
pub const CORS_MAX_AGE_SECONDS: u64 = 3600;

/// The rate limits of the service.
#[derive(Debug, Clone, Copy, PartialEq, Eq, Structural)]
pub struct RateLimitConfig {
    /// The replenishing interval for general endpoints.
    pub general_rps: u32,
    /// The replenishing interval for search endpoints.
    pub search_rps: u32,
    /// The number of requests that may come in one burst.
    pub burst_size: u32,
}

impl Default for RateLimitConfig {
    fn default() -> (config: Self)
        ensures
            config == (RateLimitConfig { general_rps: 100, search_rps: 20, burst_size: 10 }),
    {
        RateLimitConfig { general_rps: 100, search_rps: 20, burst_size: 10 }
    }
}

/// The settings of one rate limiter: the interval after which one request of
/// the quota is replenished, and the size of the quota.
#[derive(Debug, Clone, Copy, PartialEq, Eq, Structural)]
pub struct RateLimit {
    pub period_seconds: u64,
    pub period_nanos: u32,
    pub burst_size: u32,
}

impl RateLimit {
    /// A limiter can be made of these settings: neither the interval nor the
    /// quota is zero.
    pub open spec fn valid(&self) -> bool {
        self.burst_size != 0 && (self.period_seconds != 0 || self.period_nanos != 0)
    }

    /// Whether a limiter can be made of these settings.
    pub fn is_valid(&self) -> (ok: bool)
        ensures
            ok == self.valid(),
    {
        self.burst_size != 0 && (self.period_seconds != 0 || self.period_nanos != 0)
    }
}

/// The limiter for general endpoints.
pub fn general_rate_limit_layer(config: &RateLimitConfig) -> (limit: RateLimit)
    ensures
        limit == (RateLimit {
            period_seconds: config.general_rps as u64,
            period_nanos: 0,
            burst_size: config.burst_size,
        }),
{
    RateLimit {
        period_seconds: config.general_rps as u64,
        period_nanos: 0,
        burst_size: config.burst_size,
    }
}

/// The limiter for search endpoints: half the burst of the general one.
pub fn search_rate_limit_layer(config: &RateLimitConfig) -> (limit: RateLimit)
    ensures
        limit == (RateLimit {
            period_seconds: config.search_rps as u64,
            period_nanos: 0,
            burst_size: config.burst_size / 2,
        }),
{
    RateLimit {
        period_seconds: config.search_rps as u64,
        period_nanos: 0,
        burst_size: config.burst_size / 2,
    }
}

/// A limiter with an interval of its own. The interval given last counts, so
/// `requests_per_second` has no part in the result.
pub fn custom_rate_limit_layer(
    requests_per_second: u64,
    burst_size: u32,
    period_seconds: u64,
    period_nanos: u32,
) -> (limit: RateLimit)
    ensures
        limit == (RateLimit { period_seconds, period_nanos, burst_size }),
{
    RateLimit { period_seconds, period_nanos, burst_size }
}

/// What a caller is told who exceeds a rate limit.
#[derive(Debug, Clone)]
pub struct RateLimitNotice {
    pub status: u16,
    pub error: &'static str,
    pub message: &'static str,
    pub retry_after_seconds: u32,
}

/// The notice for a caller who exceeds a rate limit.
pub fn rate_limit_exceeded() -> (notice: RateLimitNotice)
    ensures
        notice.status == 429,
        notice.error@ == "rate_limit_exceeded"@,
        notice.message@ == "Too many requests. Please slow down."@,
        notice.retry_after_seconds == 1,
{
    RateLimitNotice {
        status: 429,
        error: "rate_limit_exceeded",
        message: "Too many requests. Please slow down.",
        retry_after_seconds: 1,
    }
}

/// The id of a request.
#[derive(Debug, Clone)]
pub struct RequestId(pub String);

impl RequestId {
    /// The id that the headers of a request carry, if they carry one.
    /// `value` is the text of the id header.
    pub fn from_headers(value: Option<&str>) -> (id: Option<RequestId>)
        ensures
            id is Some <==> value is Some,
            id matches Some(r) ==> r.0@ == value->Some_0@,
    {
        match value {
            Some(text) => Some(RequestId(text.to_owned())),
            None => None,
        }
    }
}

/// Makes a random id with `Uuid::new_v4` and writes it out.
///
/// Trusted to return; nothing is stated of the text, which differs from call
/// to call.
#[verifier::external_body]
fn fresh_id() -> (text: String) {
    uuid::Uuid::new_v4().to_string()
}

/// The id under which a request is handled: the one it came with, or a fresh
/// random one.
pub fn request_id_middleware(existing: Option<&str>) -> (id: String)
    ensures
        existing matches Some(text) ==> id@ == text@,
{
    match existing {
        Some(text) => text.to_owned(),
        None => fresh_id(),
    }
}

/// The headers that are set on every response unless the handler set them,
/// each with its value.
pub fn security_headers() -> (headers: Vec<(&'static str, &'static str)>)
    ensures
        headers@.len() == 7,
        headers@[0].0@ == "x-content-type-options"@ && headers@[0].1@ == "nosniff"@,
        headers@[1].0@ == "x-frame-options"@ && headers@[1].1@ == "DENY"@,
        headers@[2].0@ == "x-xss-protection"@ && headers@[2].1@ == "1; mode=block"@,
        headers@[3].0@ == "strict-transport-security"@ && headers@[3].1@
            == "max-age=31536000; includeSubDomains"@,
        headers@[4].0@ == "referrer-policy"@ && headers@[4].1@ == "no-referrer"@,
        headers@[5].0@ == "content-security-policy"@ && headers@[5].1@
            == "default-src 'self'; script-src 'self'; style-src 'self' 'unsafe-inline'; img-src 'self' data: https:; font-src 'self'; connect-src 'self'; frame-ancestors 'none'; base-uri 'self'; form-action 'self'"@,
        headers@[6].0@ == "permissions-policy"@ && headers@[6].1@
            == "accelerometer=(), camera=(), geolocation=(), gyroscope=(), magnetometer=(), microphone=(), payment=(), usb=()"@,
{
    let mut headers: Vec<(&'static str, &'static str)> = Vec::new();
    headers.push(("x-content-type-options", "nosniff"));
    headers.push(("x-frame-options", "DENY"));
    headers.push(("x-xss-protection", "1; mode=block"));
    headers.push(("strict-transport-security", "max-age=31536000; includeSubDomains"));
    headers.push(("referrer-policy", "no-referrer"));
    headers.push(
        (
            "content-security-policy",
            "default-src 'self'; script-src 'self'; style-src 'self' 'unsafe-inline'; img-src 'self' data: https:; font-src 'self'; connect-src 'self'; frame-ancestors 'none'; base-uri 'self'; form-action 'self'",
        ),
    );
    headers.push(
        (
            "permissions-policy",
            "accelerometer=(), camera=(), geolocation=(), gyroscope=(), magnetometer=(), microphone=(), payment=(), usb=()",
        ),
    );
    headers
}

/// The largest request body that is accepted, in bytes.
pub fn body_limit_layer() -> (bytes: usize)
    ensures
        bytes == BODY_LIMIT,
{
    BODY_LIMIT
}

/// The time after which a request is given up, in seconds.
pub fn timeout_layer() -> (seconds: u64)
    ensures
        seconds == TIMEOUT_SECONDS,
{
    TIMEOUT_SECONDS
}

/// What other origins may do.
#[derive(Debug, Clone)]
pub struct CorsPolicy {
    pub methods: Vec<&'static str>,
    pub headers: Vec<&'static str>,
    pub max_age_seconds: u64,
}

/// The policy for requests from other origins: reading and posting, with the
/// usual headers.
pub fn cors_layer() -> (policy: CorsPolicy)
    ensures
        policy.methods@.len() == 3,
        policy.methods@[0]@ == "GET"@,
        policy.methods@[1]@ == "POST"@,
        policy.methods@[2]@ == "OPTIONS"@,
        policy.headers@.len() == 3,
        policy.headers@[0]@ == "content-type"@,
        policy.headers@[1]@ == "authorization"@,
        policy.headers@[2]@ == "accept"@,
        policy.max_age_seconds == CORS_MAX_AGE_SECONDS,
{
    let mut methods: Vec<&'static str> = Vec::new();
    methods.push("GET");
    methods.push("POST");
    methods.push("OPTIONS");
    let mut headers: Vec<&'static str> = Vec::new();
    headers.push("content-type");
    headers.push("authorization");
    headers.push("accept");
    CorsPolicy { methods, headers, max_age_seconds: CORS_MAX_AGE_SECONDS }
}

/// The headers whose values are kept out of logs.
pub fn sensitive_headers_layer() -> (headers: Vec<&'static str>)
    ensures
        headers@.len() == 3,
        headers@[0]@ == "authorization"@,
        headers@[1]@ == "cookie"@,
        headers@[2]@ == "set-cookie"@,
{
    let mut headers: Vec<&'static str> = Vec::new();
    headers.push("authorization");
    headers.push("cookie");
    headers.push("set-cookie");
    headers
}

} // verus!
