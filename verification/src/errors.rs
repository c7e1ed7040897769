//! The error taxonomy of the lyrics engine: transient failures the HTTP
//! layer retries, malformed-data failures that surface, negative results
//! that are not failures, and contract violations.

use vstd::prelude::*;
use vstd::string::StringExecFns;

verus! {

/// Everything that can go wrong while fetching lyrics.
#[derive(Debug, Clone)]
pub enum LyricsError {
    /// The network request itself failed.
    NetworkError(String),
    /// A response was not the JSON it should have been.
    JsonParseError(String),
    /// A request URL did not parse.
    UrlParseError(String),
    /// The cache could not be read or written.
    CacheError(String),
    /// A non-success HTTP status outside the classified ones.
    ApiError { code: String, message: String },
    /// The song identity was blank.
    InvalidSongInfo,
    /// No provider knows the song.
    SongNotFound,
    /// The song is known but has no lyrics.
    LyricsNotFound,
    /// The request timed out.
    Timeout,
    /// HTTP 429: too many requests.
    RateLimited,
    /// Connection failure or HTTP 5xx.
    ServiceUnavailable,
    /// A failure of this engine itself.
    InternalError(String),
}

/// The transient errors: what a retry may cure.
pub open spec fn retryable(e: &LyricsError) -> bool {
    ||| e is NetworkError
    ||| e is Timeout
    ||| e is ServiceUnavailable
    ||| e is RateLimited
}

/// The retry delay an error calls for at a given attempt: a fixed minute
/// for rate limiting, a fixed half minute for an unavailable service, and
/// exponential backoff from 100 ms capped at 30 s otherwise.
pub open spec fn spec_retry_delay_ms(e: &LyricsError, attempt: u32) -> u64 {
    if e is RateLimited {
        60000
    } else if e is ServiceUnavailable {
        30000
    } else {
        if attempt < 9 && pow2(attempt as nat) * 100 < 30000 {
            (pow2(attempt as nat) * 100) as u64
        } else {
            30000
        }
    }
}

/// Two to the `n`.
pub open spec fn pow2(n: nat) -> nat
    decreases n,
{
    if n == 0 {
        1
    } else {
        2 * pow2((n - 1) as nat)
    }
}

impl LyricsError {
    /// Whether a retry may cure this error.
    pub fn is_retryable(&self) -> (r: bool)
        ensures
            r == retryable(self),
    {
        match self {
            LyricsError::NetworkError(_) => true,
            LyricsError::Timeout => true,
            LyricsError::ServiceUnavailable => true,
            LyricsError::RateLimited => true,
            _ => false,
        }
    }

    /// The delay before retrying after this error, in milliseconds.
    pub fn retry_delay_ms(&self, attempt: u32) -> (r: u64)
        ensures
            r == spec_retry_delay_ms(self, attempt),
    {
        match self {
            LyricsError::RateLimited => 60000,
            LyricsError::ServiceUnavailable => 30000,
            _ => {
                if attempt >= 9 {
                    proof {
                        lemma_pow2_ge_512(attempt as nat);
                    }
                    30000
                } else {
                    let p = pow2_exec(attempt);
                    let d = p * 100;
                    if d < 30000 {
                        d
                    } else {
                        30000
                    }
                }
            },
        }
    }

    /// A short account of the error, for event payloads and logs.
    pub fn describe(&self) -> (r: String)
        ensures
            r@.len() > 0,
    {
        let base = match self {
            LyricsError::NetworkError(m) => String::from_str("network request failed: ").concat(m.as_str()),
            LyricsError::JsonParseError(m) => String::from_str("JSON parse failed: ").concat(m.as_str()),
            LyricsError::UrlParseError(m) => String::from_str("URL parse failed: ").concat(m.as_str()),
            LyricsError::CacheError(m) => String::from_str("cache operation failed: ").concat(m.as_str()),
            LyricsError::ApiError { code, message } => String::from_str("API error ")
                .concat(code.as_str())
                .concat(": ")
                .concat(message.as_str()),
            LyricsError::InvalidSongInfo => String::from_str("invalid song info"),
            LyricsError::SongNotFound => String::from_str("song not found"),
            LyricsError::LyricsNotFound => String::from_str("lyrics not found"),
            LyricsError::Timeout => String::from_str("request timed out"),
            LyricsError::RateLimited => String::from_str("rate limited"),
            LyricsError::ServiceUnavailable => String::from_str("service unavailable"),
            LyricsError::InternalError(m) => String::from_str("internal error: ").concat(m.as_str()),
        };
        proof {
            reveal_strlit("network request failed: ");
            reveal_strlit("JSON parse failed: ");
            reveal_strlit("URL parse failed: ");
            reveal_strlit("cache operation failed: ");
            reveal_strlit("API error ");
            reveal_strlit("invalid song info");
            reveal_strlit("song not found");
            reveal_strlit("lyrics not found");
            reveal_strlit("request timed out");
            reveal_strlit("rate limited");
            reveal_strlit("service unavailable");
            reveal_strlit("internal error: ");
        }
        base
    }
}

/// Two to the `n`, for small `n`.
pub(crate) fn pow2_exec(n: u32) -> (r: u64)
    requires
        n < 9,
    ensures
        r == pow2(n as nat),
        r <= 256,
{
    let mut r: u64 = 1;
    let mut i: u32 = 0;
    while i < n
        invariant
            i <= n < 9,
            r == pow2(i as nat),
            r <= 256,
        decreases n - i,
    {
        proof {
            lemma_pow2_le(i as nat, 7);
            assert(pow2(7) == 128) by {
                reveal_with_fuel(pow2, 8);
            }
        }
        r = r * 2;
        i += 1;
        proof {
            assert(pow2(i as nat) == 2 * pow2((i - 1) as nat));
        }
    }
    r
}

/// Powers of two grow with the exponent.
pub(crate) proof fn lemma_pow2_le(a: nat, b: nat)
    requires
        a <= b,
    ensures
        pow2(a) <= pow2(b),
    decreases b,
{
    if a < b {
        lemma_pow2_le(a, (b - 1) as nat);
        assert(pow2(b) == 2 * pow2((b - 1) as nat));
        assert(pow2((b - 1) as nat) >= 1) by {
            lemma_pow2_pos((b - 1) as nat);
        }
    }
}

/// Powers of two are positive.
proof fn lemma_pow2_pos(n: nat)
    ensures
        pow2(n) >= 1,
    decreases n,
{
    if n > 0 {
        lemma_pow2_pos((n - 1) as nat);
    }
}

/// From the ninth attempt on the exponential delay has passed the cap.
proof fn lemma_pow2_ge_512(n: nat)
    requires
        n >= 9,
    ensures
        pow2(n) * 100 >= 30000,
    decreases n,
{
    lemma_pow2_le(9, n);
    assert(pow2(9) == 512) by {
        reveal_with_fuel(pow2, 10);
    }
}

} // verus!
