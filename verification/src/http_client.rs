//! The resilient-HTTP layer's decision core: request configuration, error
//! classification, exponential backoff with jitter, and the retry plan a
//! driver follows. The driver performs the requests and sleeps; every
//! decision about them is made — and verified — here.

use vstd::prelude::*;
use vstd::string::StringExecFns;

use crate::errors::{LyricsError, pow2, pow2_exec};
use crate::strutil::{dec_str, u64_to_dec, string_from_chars};

verus! {

/// How the HTTP client is built and how often it retries.
#[derive(Debug, Clone)]
pub struct HttpClientConfig {
    /// Whole-request timeout, in milliseconds.
    pub timeout_ms: u64,
    /// How many retries follow the first attempt.
    pub max_retries: u32,
    /// The user agent sent with each request.
    pub user_agent: String,
    /// Connection timeout, in milliseconds.
    pub connect_timeout_ms: u64,
}

impl Default for HttpClientConfig {
    /// Thirty seconds per request, three retries, ten seconds to connect.
    fn default() -> (r: Self)
        ensures
            r.timeout_ms == 30000,
            r.max_retries == 3,
            r.connect_timeout_ms == 10000,
            r.user_agent@.len() > 0,
    {
        let user_agent = String::from_str(
            "Mozilla/5.0 (Windows NT 10.0; Win64; x64) AppleWebKit/537.36",
        );
        proof {
            reveal_strlit("Mozilla/5.0 (Windows NT 10.0; Win64; x64) AppleWebKit/537.36");
        }
        HttpClientConfig { timeout_ms: 30000, max_retries: 3, user_agent, connect_timeout_ms: 10000 }
    }
}

/// Whether a text parses as a URL.
pub uninterp spec fn is_valid_url(s: Seq<char>) -> bool;

/// Relies on `url::Url::parse`: whether the text parses depends on its
/// characters alone; the error value carries the parser's message.
#[verifier::external_body]
pub fn check_url(url: &str) -> (r: Result<(), String>)
    ensures
        r is Ok <==> is_valid_url(url@),
{
    match url::Url::parse(url) {
        Ok(_) => Ok(()),
        Err(e) => Err(format!("{}", e)),
    }
}

/// Checks a request URL before any attempt: an unparseable one fails with
/// a URL parse error carrying the parser's message.
pub fn validate_request_url(url: &str) -> (r: Result<(), LyricsError>)
    ensures
        r is Ok <==> is_valid_url(url@),
        r matches Err(e) ==> e is UrlParseError,
{
    match check_url(url) {
        Ok(()) => Ok(()),
        Err(m) => Err(LyricsError::UrlParseError(m)),
    }
}

/// Relies on `fastrand::u64` over an inclusive range: some value between
/// the bounds; nothing more is promised of a random draw.
#[verifier::external_body]
fn random_u64_in(lo: u64, hi: u64) -> (r: u64)
    requires
        lo <= hi,
    ensures
        lo <= r <= hi,
{
    fastrand::u64(lo..=hi)
}

/// The exponential backoff delay for an attempt, with ±25% jitter, capped
/// at 30 s. Whatever the jitter, it stays within a quarter of the
/// exponential; the cap can bind only from the eighth retry on, where the
/// jittered band first crosses it.
pub fn calculate_retry_delay(attempt: u32) -> (r: u64)
    ensures
        r <= 30000,
        attempt < 9 ==> {
            let exp = pow2(attempt as nat) * 100;
            exp - exp / 4 <= r
        },
        attempt <= 7 ==> {
            let exp = pow2(attempt as nat) * 100;
            r <= exp + exp / 4
        },
        attempt == 8 ==> {
            let exp = pow2(attempt as nat) * 100;
            r <= exp + exp / 4 || r == 30000
        },
        attempt >= 9 ==> r == 30000,
{
    if attempt >= 9 {
        return 30000;
    }
    proof {
        if attempt <= 7 {
            crate::errors::lemma_pow2_le(attempt as nat, 7);
            assert(pow2(7) == 128) by {
                reveal_with_fuel(pow2, 8);
            }
        }
    }
    let exponential: u64 = pow2_exec(attempt) * 100;
    let jitter_range = exponential / 4;
    let jitter = random_u64_in(0, 2 * jitter_range);
    let delay = exponential - jitter_range + jitter;
    if delay < 30000 {
        delay
    } else {
        30000
    }
}

/// Classifies a non-success HTTP status: 429 is rate limiting, any 5xx an
/// unavailable service, anything else an API error carrying the decimal
/// status code.
pub fn classify_http_status(code: u16) -> (r: LyricsError)
    requires
        !(200 <= code < 300),
    ensures
        code == 429 ==> r is RateLimited,
        500 <= code <= 599 ==> r is ServiceUnavailable,
        code != 429 && !(500 <= code <= 599) ==> (r matches LyricsError::ApiError {
            code: c, message
        } && c@ == dec_str(code as int) && message@.len() > 0),
{
    if code == 429 {
        LyricsError::RateLimited
    } else if 500 <= code && code <= 599 {
        LyricsError::ServiceUnavailable
    } else {
        let digits = u64_to_dec(code as u64);
        let code_str = string_from_chars(&digits);
        let message = String::from_str("HTTP error ").concat(code_str.as_str());
        proof {
            reveal_strlit("HTTP error ");
        }
        LyricsError::ApiError { code: code_str, message }
    }
}

/// Classifies a transport failure: a timeout, a connection failure, or any
/// other network error with its description.
pub fn classify_transport(timed_out: bool, connect_failed: bool, detail: String) -> (r: LyricsError)
    ensures
        timed_out ==> r is Timeout,
        !timed_out && connect_failed ==> r is ServiceUnavailable,
        !timed_out && !connect_failed ==> (r matches LyricsError::NetworkError(d) && d@ == detail@),
{
    if timed_out {
        LyricsError::Timeout
    } else if connect_failed {
        LyricsError::ServiceUnavailable
    } else {
        LyricsError::NetworkError(detail)
    }
}

/// How one attempt of a GET ended, as the driver reports it.
#[derive(Debug, Clone)]
pub enum AttemptOutcome {
    /// A success status, with the response body.
    Success(String),
    /// A non-success status code.
    Status(u16),
    /// The request timed out.
    TimedOut,
    /// The connection could not be made.
    ConnectFailed,
    /// Another transport failure, with its description.
    TransportFailed(String),
}

/// What the retry loop does after an attempt.
#[derive(Debug, Clone)]
pub enum RetryStep {
    /// Hand the body to the caller.
    Done(String),
    /// Sleep for the given delay, then attempt again.
    RetryAfter { delay_ms: u64 },
    /// Give up with the error.
    Fail(LyricsError),
}

/// The error an outcome classifies to, up to the message strings it
/// carries.
pub open spec fn outcome_error_shape(outcome: &AttemptOutcome, e: &LyricsError) -> bool {
    match *outcome {
        AttemptOutcome::Success(_) => false,
        AttemptOutcome::Status(code) => {
            if code == 429 {
                *e is RateLimited
            } else if 500 <= code && code <= 599 {
                *e is ServiceUnavailable
            } else {
                *e matches LyricsError::ApiError { code: c, message: _ }
                    && c@ == dec_str(code as int)
            }
        },
        AttemptOutcome::TimedOut => *e is Timeout,
        AttemptOutcome::ConnectFailed => *e is ServiceUnavailable,
        AttemptOutcome::TransportFailed(d) => *e matches LyricsError::NetworkError(m) && m@ == d@,
    }
}

/// Decides the retry loop's next step. A success returns its body at once.
/// A failure on any attempt before the last is retried — after a fixed
/// 60 s when the service rate-limited the client, after the backoff delay
/// otherwise; a failure on the last allowed attempt — attempt
/// `max_retries`, counting from zero — fails with the classified error, so
/// exactly `max_retries + 1` attempts ever run.
pub fn next_retry_step(config: &HttpClientConfig, attempt: u32, outcome: AttemptOutcome) -> (r: RetryStep)
    requires
        outcome matches AttemptOutcome::Status(code) ==> !(200 <= code < 300),
    ensures
        (outcome matches AttemptOutcome::Success(body) && (r matches RetryStep::Done(b)
            && b@ == body@)) || (!(outcome is Success) && {
            if attempt < config.max_retries {
                r matches RetryStep::RetryAfter { delay_ms } && {
                    if outcome matches AttemptOutcome::Status(code) && code == 429 {
                        delay_ms == 60000
                    } else {
                        delay_ms <= 30000
                    }
                }
            } else {
                r matches RetryStep::Fail(e) && outcome_error_shape(&outcome, &e)
            }
        }),
{
    match outcome {
        AttemptOutcome::Success(body) => RetryStep::Done(body),
        AttemptOutcome::Status(code) => {
            let e = classify_http_status(code);
            fail_or_retry(config, attempt, e)
        },
        AttemptOutcome::TimedOut => {
            fail_or_retry(config, attempt, LyricsError::Timeout)
        },
        AttemptOutcome::ConnectFailed => {
            fail_or_retry(config, attempt, LyricsError::ServiceUnavailable)
        },
        AttemptOutcome::TransportFailed(d) => {
            fail_or_retry(config, attempt, LyricsError::NetworkError(d))
        },
    }
}

/// Retries while attempts remain — a rate-limited attempt waits the fixed
/// override, any other the backoff — else fails with the given error.
fn fail_or_retry(config: &HttpClientConfig, attempt: u32, e: LyricsError) -> (r: RetryStep)
    ensures
        attempt < config.max_retries ==> (r matches RetryStep::RetryAfter { delay_ms } && {
            if e is RateLimited {
                delay_ms == 60000
            } else {
                delay_ms <= 30000
            }
        }),
        attempt >= config.max_retries ==> r == RetryStep::Fail(e),
{
    if attempt < config.max_retries {
        let delay_ms = match &e {
            LyricsError::RateLimited => e.retry_delay_ms(attempt),
            _ => calculate_retry_delay(attempt),
        };
        RetryStep::RetryAfter { delay_ms }
    } else {
        RetryStep::Fail(e)
    }
}

} // verus!
