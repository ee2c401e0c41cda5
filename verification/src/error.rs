//! The closed set of errors and what each of them tells a caller about
//! retrying.

use vstd::prelude::*;
use vstd::string::StringExecFns;
use std::time::Duration;
use crate::text::{decimal_text, push_decimal, texts_of};
use crate::timing::{duration_debug_string, duration_debug_text, duration_nanos};

verus! {

/// What the HTTP client reported of a failed exchange.
#[derive(Debug)]
pub struct HttpFailure {
    /// The exchange ran out of time.
    pub is_timeout: bool,
    /// No connection could be made.
    pub is_connect: bool,
    /// Status of the response, when one arrived.
    pub status: Option<u16>,
    /// The client's description of the failure.
    pub message: String,
}

/// Everything that can go wrong, each kind with what a caller needs to
/// decide how to go on.
#[derive(Debug)]
#[allow(inconsistent_fields)]
pub enum BlockProductionError {
    /// The HTTP exchange failed: in transport when `source.status` is
    /// absent, with an error status otherwise.
    Http { source: HttpFailure, context: Option<String> },
    /// JSON could not be read or written.
    Json { source: String, data_sample: Option<String> },
    /// The endpoint answered with an RPC error object.
    Rpc { code: i32, message: String, method: String, raw_response: Option<String> },
    /// The configuration is invalid.
    Config { message: String, field: Option<String>, suggestion: Option<String> },
    /// The endpoint limits the rate of requests.
    RateLimit { requests: u32, window: Duration, limit: u32, retry_after: Option<Duration> },
    /// An attempt ran out of time.
    Timeout { duration: Duration, operation: String, timeout_type: TimeoutType },
    /// The requested slot range is not a range.
    InvalidSlotRange {
        message: String,
        provided_range: Option<(u64, u64)>,
        valid_range: Option<(u64, u64)>,
    },
    /// The endpoint has no block production for the range.
    NoData { requested_range: Option<(u64, u64)>, reason: Option<String> },
    /// Every attempt failed.
    RetryExhausted {
        attempts: u32,
        total_duration: Duration,
        last_error: Box<BlockProductionError>,
        error_history: Vec<String>,
    },
    /// A validator identity is malformed.
    InvalidValidator { pubkey: String, expected_format: String },
    /// No connection to the endpoint.
    ConnectionFailed { endpoint: String, source: String, endpoint_reachable: Option<bool> },
    /// The response body could not be understood.
    ResponseParsing {
        reason: String,
        response_sample: Option<String>,
        expected_structure: Option<String>,
    },
    /// A fault of the library itself.
    Internal { message: String, location: Option<String>, debug_context: Option<String> },
    /// The endpoint refused the credentials.
    Auth { message: String, auth_type: AuthErrorType },
    /// Anything else, with an optional category.
    General { message: String, category: Option<ErrorCategory> },
}

/// Phase in which a timeout struck.
#[derive(Debug, Clone, Copy, PartialEq, Eq, Structural)]
pub enum TimeoutType {
    /// While connecting.
    Connection,
    /// While waiting for the response.
    Read,
    /// The request as a whole.
    Request,
}

/// Why the endpoint refused the credentials.
#[derive(Debug, Clone, Copy, PartialEq, Eq, Structural)]
pub enum AuthErrorType {
    /// No API key was sent.
    MissingApiKey,
    /// The API key is wrong or expired.
    InvalidApiKey,
    /// The quota of the API key is used up.
    QuotaExceeded,
    /// The caller's address is blocked.
    IpBlocked,
}

/// Broad categories of errors.
#[derive(Debug, Clone, Copy, PartialEq, Eq, Structural)]
pub enum ErrorCategory {
    Network,
    Configuration,
    Validation,
    Rpc,
    RateLimit,
    Authentication,
}

/// Result with the library's error.
pub type Result<T> = std::result::Result<T, BlockProductionError>;

/// What every error answers about itself.
pub trait ErrorExt {
    /// Whether trying again may succeed.
    fn is_retryable(&self) -> bool;

    /// Whether the error lies in the configuration or the request.
    fn is_config_error(&self) -> bool;

    /// Whether the error is temporary by nature.
    fn is_transient(&self) -> bool;

    /// How long to wait before trying again, if at all.
    fn retry_delay(&self) -> Option<Duration>;

    /// The category of the error.
    fn category(&self) -> ErrorCategory;

    /// Hints for a developer who meets the error.
    fn debug_hints(&self) -> Vec<String>;
}

impl HttpFailure {
    /// A failure in transport, or a server error status.
    pub open spec fn spec_is_retryable(self) -> bool {
        self.is_timeout || self.is_connect || match self.status {
            None => true,
            Some(code) => 500 <= code < 600,
        }
    }
}

impl BlockProductionError {
    /// Transport failures, timeouts, rate limits, server error statuses and
    /// the RPC codes for internal and server errors can be retried.
    pub open spec fn spec_is_retryable(self) -> bool {
        match self {
            Self::Http { source, .. } => source.spec_is_retryable(),
            Self::Timeout { .. } | Self::RateLimit { .. } | Self::ConnectionFailed { .. } => true,
            Self::Rpc { code, .. } => code == -32603 || code == -32000,
            Self::General { category, .. } => category == Some(ErrorCategory::Network) || category
                == Some(ErrorCategory::RateLimit),
            _ => false,
        }
    }

    /// An invalid configuration and a slot range refused before anything
    /// is sent; nothing else.
    pub open spec fn spec_is_config_error(self) -> bool {
        self is Config || self is InvalidSlotRange
    }

    /// Timeouts, rate limits and failed connections pass by themselves.
    pub open spec fn spec_is_transient(self) -> bool {
        match self {
            Self::Http { source, .. } => source.is_timeout || source.is_connect,
            Self::Timeout { .. } | Self::RateLimit { .. } | Self::ConnectionFailed { .. } => true,
            _ => false,
        }
    }

    /// The suggested delay in nanoseconds: what the endpoint asked for on a
    /// rate limit (a minute if it did not say), five seconds after a timeout,
    /// two seconds after a failure in transport, none otherwise.
    pub open spec fn spec_retry_delay_nanos(self) -> Option<nat> {
        match self {
            Self::RateLimit { retry_after: Some(d), .. } => Some(duration_nanos(d)),
            Self::RateLimit { retry_after: None, .. } => Some(60_000_000_000),
            Self::Timeout { .. } => Some(5_000_000_000),
            Self::ConnectionFailed { .. } => Some(2_000_000_000),
            Self::Http { source, .. } => if source.status is None {
                Some(2_000_000_000)
            } else {
                None
            },
            _ => None,
        }
    }

    /// The category of each kind of error.
    pub open spec fn spec_category(self) -> ErrorCategory {
        match self {
            Self::Http { .. } | Self::ConnectionFailed { .. } | Self::Timeout { .. } => {
                ErrorCategory::Network
            },
            Self::Config { .. } => ErrorCategory::Configuration,
            Self::InvalidSlotRange { .. } | Self::InvalidValidator { .. } => {
                ErrorCategory::Validation
            },
            Self::Rpc { .. } | Self::ResponseParsing { .. } => ErrorCategory::Rpc,
            Self::RateLimit { .. } => ErrorCategory::RateLimit,
            Self::Auth { .. } => ErrorCategory::Authentication,
            Self::Json { .. } | Self::NoData { .. } | Self::RetryExhausted { .. } | Self::Internal {
                ..
            } => ErrorCategory::Network,
            Self::General { category, .. } => match category {
                Some(c) => c,
                None => ErrorCategory::Network,
            },
        }
    }

    /// The hints for each kind of error, in order.
    pub open spec fn spec_debug_hints(self) -> Seq<Seq<char>> {
        match self {
            Self::Http { source, .. } => if source.is_timeout {
                seq!["Try increasing timeout duration"@, "Check network connectivity"@]
            } else if source.is_connect {
                seq!["Verify RPC endpoint URL is correct"@, "Check if RPC service is running"@]
            } else {
                Seq::empty()
            },
            Self::RateLimit { limit, window, .. } => seq![
                "Reduce request frequency to under "@ + decimal_text(limit as nat) + " per "@
                    + duration_debug_text(duration_nanos(window)),
                "Consider using a private RPC endpoint for higher limits"@,
            ],
            Self::Config { suggestion: Some(suggestion), .. } => seq![suggestion@],
            Self::Auth { auth_type, .. } => match auth_type {
                AuthErrorType::MissingApiKey => seq!["Add API key to request headers"@],
                AuthErrorType::InvalidApiKey => seq!["Verify API key is correct and not expired"@],
                AuthErrorType::QuotaExceeded => seq!["Upgrade RPC plan or wait for quota reset"@],
                AuthErrorType::IpBlocked => seq!["Contact RPC provider to unblock IP address"@],
            },
            Self::Timeout { timeout_type, duration, .. } => {
                let first = "Request timed out after "@ + duration_debug_text(
                    duration_nanos(duration),
                );
                match timeout_type {
                    TimeoutType::Request => seq![
                        first,
                        "Consider increasing request timeout"@,
                        "Check network latency to RPC endpoint"@,
                    ],
                    TimeoutType::Connection => seq![
                        first,
                        "Check network connectivity"@,
                        "Verify RPC endpoint is reachable"@,
                    ],
                    TimeoutType::Read => seq![
                        first,
                        "RPC server is not responding"@,
                        "Try a different RPC endpoint"@,
                    ],
                }
            },
            _ => Seq::empty(),
        }
    }

    /// A configuration error with an optional field and suggestion.
    pub fn config_error(message: &str, field: Option<&str>, suggestion: Option<&str>) -> (e: Self)
        ensures
            e matches Self::Config { message: m, field: f, suggestion: s } && m@ == message@ && (
            match (field, f) {
                (Some(a), Some(b)) => a@ == b@,
                (None, None) => true,
                _ => false,
            }) && (match (suggestion, s) {
                (Some(a), Some(b)) => a@ == b@,
                (None, None) => true,
                _ => false,
            }),
    {
        Self::Config {
            message: message.to_owned(),
            field: match field {
                Some(f) => Some(f.to_owned()),
                None => None,
            },
            suggestion: match suggestion {
                Some(s) => Some(s.to_owned()),
                None => None,
            },
        }
    }

    /// A rate limit whose window is also the time to wait.
    pub fn rate_limit_error(requests: u32, limit: u32, window: Duration) -> (e: Self)
        ensures
            e == (Self::RateLimit { requests, window, limit, retry_after: Some(window) }),
    {
        Self::RateLimit { requests, window, limit, retry_after: Some(window) }
    }

    /// A failed connection to `endpoint`, described by `source`.
    pub fn connection_failed(endpoint: &str, source: String) -> (e: Self)
        ensures
            e matches Self::ConnectionFailed { endpoint: ep, source: s, endpoint_reachable: r }
                && ep@ == endpoint@ && s == source && r is None,
    {
        Self::ConnectionFailed { endpoint: endpoint.to_owned(), source, endpoint_reachable: None }
    }
}

/// No error asks to be retried and blames the configuration at once; an
/// invalid configuration and missing data are never retried.
pub proof fn lemma_retryable_is_not_config_error(e: BlockProductionError)
    ensures
        !(e.spec_is_retryable() && e.spec_is_config_error()),
        e is Config ==> !e.spec_is_retryable(),
        e is NoData ==> !e.spec_is_retryable(),
        e is InvalidSlotRange ==> !e.spec_is_retryable(),
{
}

/// A delay is suggested only for errors that can be retried.
pub proof fn lemma_delay_only_when_retryable(e: BlockProductionError)
    ensures
        e.spec_retry_delay_nanos() is Some ==> e.spec_is_retryable(),
{
}

impl ErrorExt for BlockProductionError {
    fn is_retryable(&self) -> (r: bool)
        ensures
            r == self.spec_is_retryable(),
    {
        match self {
            Self::Http { source, .. } => {
                source.is_timeout || source.is_connect || match source.status {
                    None => true,
                    Some(code) => 500 <= code && code < 600,
                }
            },
            Self::Timeout { .. } | Self::RateLimit { .. } | Self::ConnectionFailed { .. } => true,
            Self::Rpc { code, .. } => *code == -32603 || *code == -32000,
            Self::General { category, .. } => match category {
                Some(ErrorCategory::Network) => true,
                Some(ErrorCategory::RateLimit) => true,
                _ => false,
            },
            _ => false,
        }
    }

    fn is_config_error(&self) -> (r: bool)
        ensures
            r == self.spec_is_config_error(),
    {
        match self {
            Self::Config { .. } | Self::InvalidSlotRange { .. } => true,
            _ => false,
        }
    }

    fn is_transient(&self) -> (r: bool)
        ensures
            r == self.spec_is_transient(),
    {
        match self {
            Self::Http { source, .. } => source.is_timeout || source.is_connect,
            Self::Timeout { .. } | Self::RateLimit { .. } | Self::ConnectionFailed { .. } => true,
            _ => false,
        }
    }

    fn retry_delay(&self) -> (delay: Option<Duration>)
        ensures
            match (delay, self.spec_retry_delay_nanos()) {
                (Some(d), Some(nanos)) => duration_nanos(d) == nanos,
                (None, None) => true,
                _ => false,
            },
            self matches Self::RateLimit { retry_after: Some(d), .. } ==> delay == Some(*d),
    {
        match self {
            Self::RateLimit { retry_after, .. } => match retry_after {
                Some(d) => Some(*d),
                None => Some(Duration::from_secs(60)),
            },
            Self::Timeout { .. } => Some(Duration::from_secs(5)),
            Self::ConnectionFailed { .. } => Some(Duration::from_secs(2)),
            Self::Http { source, .. } => match source.status {
                None => Some(Duration::from_secs(2)),
                Some(_) => None,
            },
            _ => None,
        }
    }

    fn category(&self) -> (c: ErrorCategory)
        ensures
            c == self.spec_category(),
    {
        match self {
            Self::Http { .. } | Self::ConnectionFailed { .. } | Self::Timeout { .. } => {
                ErrorCategory::Network
            },
            Self::Config { .. } => ErrorCategory::Configuration,
            Self::InvalidSlotRange { .. } | Self::InvalidValidator { .. } => {
                ErrorCategory::Validation
            },
            Self::Rpc { .. } | Self::ResponseParsing { .. } => ErrorCategory::Rpc,
            Self::RateLimit { .. } => ErrorCategory::RateLimit,
            Self::Auth { .. } => ErrorCategory::Authentication,
            Self::Json { .. } | Self::NoData { .. } | Self::RetryExhausted { .. } | Self::Internal {
                ..
            } => ErrorCategory::Network,
            Self::General { category, .. } => match category {
                Some(c) => *c,
                None => ErrorCategory::Network,
            },
        }
    }

    fn debug_hints(&self) -> (hints: Vec<String>)
        ensures
            texts_of(hints@) == self.spec_debug_hints(),
    {
        let mut hints: Vec<String> = Vec::new();
        match self {
            Self::Http { source, .. } => {
                if source.is_timeout {
                    hints.push("Try increasing timeout duration".to_owned());
                    hints.push("Check network connectivity".to_owned());
                } else if source.is_connect {
                    hints.push("Verify RPC endpoint URL is correct".to_owned());
                    hints.push("Check if RPC service is running".to_owned());
                }
            },
            Self::RateLimit { limit, window, .. } => {
                let mut first = "Reduce request frequency to under ".to_owned();
                push_decimal(&mut first, *limit as u128);
                first.append(" per ");
                let span = duration_debug_string(window);
                first.append(span.as_str());
                hints.push(first);
                hints.push("Consider using a private RPC endpoint for higher limits".to_owned());
            },
            Self::Config { suggestion, .. } => {
                match suggestion {
                    Some(s) => {
                        hints.push(s.clone());
                    },
                    None => {},
                }
            },
            Self::Auth { auth_type, .. } => {
                match auth_type {
                    AuthErrorType::MissingApiKey => {
                        hints.push("Add API key to request headers".to_owned());
                    },
                    AuthErrorType::InvalidApiKey => {
                        hints.push("Verify API key is correct and not expired".to_owned());
                    },
                    AuthErrorType::QuotaExceeded => {
                        hints.push("Upgrade RPC plan or wait for quota reset".to_owned());
                    },
                    AuthErrorType::IpBlocked => {
                        hints.push("Contact RPC provider to unblock IP address".to_owned());
                    },
                }
            },
            Self::Timeout { timeout_type, duration, .. } => {
                let mut first = "Request timed out after ".to_owned();
                let span = duration_debug_string(duration);
                first.append(span.as_str());
                hints.push(first);
                match timeout_type {
                    TimeoutType::Request => {
                        hints.push("Consider increasing request timeout".to_owned());
                        hints.push("Check network latency to RPC endpoint".to_owned());
                    },
                    TimeoutType::Connection => {
                        hints.push("Check network connectivity".to_owned());
                        hints.push("Verify RPC endpoint is reachable".to_owned());
                    },
                    TimeoutType::Read => {
                        hints.push("RPC server is not responding".to_owned());
                        hints.push("Try a different RPC endpoint".to_owned());
                    },
                }
            },
            _ => {},
        }
        assert(texts_of(hints@) =~= self.spec_debug_hints());
        hints
    }
}

} // verus!
