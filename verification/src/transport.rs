//! The retry policy of the RPC transport as a state machine.
//!
//! The library decides; its caller performs. [`RetryState::start`] and
//! [`RetryState::step`] hand out a [`TransportAction`]; the caller carries
//! it out (takes a rate-limiter token, sends, waits, reads the body) and
//! hands back what happened as a [`TransportEvent`]. The mapping from what
//! happened to what follows is a pair of total lookup functions,
//! [`status_verdict`] and [`send_failure_verdict`].

use vstd::prelude::*;
use vstd::string::StringExecFns;
use vstd::string::StringSliceAdditionalSpecFns;
use std::time::Duration;
use crate::error::{AuthErrorType, BlockProductionError, HttpFailure, TimeoutType};
use crate::text::{
    bytes_of, decimal_text, push_decimal, push_signed_decimal, signed_decimal_text, texts_of,
};
use crate::timing::{duration_debug_string, duration_debug_text, duration_nanos};
use crate::types::ResponseMetadata;

verus! {

/// How often and how long the transport tries.
#[derive(Debug)]
pub struct RetryPolicy {
    /// Attempts to make; zero attempts fail at once.
    pub max_attempts: u32,
    /// Time allowed for each attempt.
    pub timeout: Duration,
    /// Wait between attempts after a timeout, a failed connection or a
    /// server error; by default there is none.
    pub backoff: Option<Duration>,
}

/// Where an exchange stands.
#[derive(Debug, Clone, Copy, PartialEq, Eq, Structural)]
pub enum Phase {
    /// A request is on its way.
    Sending,
    /// A response with a success status arrived; its body is being read.
    ReadingBody,
    /// The exchange has ended.
    Finished,
}

/// Why an exchange ends in failure.
#[derive(Debug, Clone, Copy, PartialEq, Eq, Structural)]
pub enum FailureKind {
    /// The last attempt ran out of time.
    Timeout,
    /// The last attempt could not connect.
    Connection,
    /// The HTTP client failed in another way.
    Transport,
    /// The last attempt was answered with status 429.
    RateLimited,
    /// Status 401 or 403.
    Auth(AuthErrorType),
    /// The last attempt was answered with a server error status.
    ServerError,
    /// Any other status outside the success range.
    UnexpectedStatus,
}

/// What follows from the outcome of an attempt.
#[derive(Debug, Clone, Copy, PartialEq, Eq, Structural)]
pub enum Verdict {
    /// The response is a success: read its body.
    ReadBody,
    /// Try again, after the configured backoff if there is one.
    Retry,
    /// Try again after the delay that the rate limit asks for.
    RetryAfterRateLimit,
    /// Give up.
    Fail(FailureKind),
}

/// What follows from an HTTP status. Success statuses have their body
/// read; 429 is retried after a delay and 5xx at once, unless the attempt
/// was the last; 401 and 403 and every other status end the exchange.
pub open spec fn status_verdict(status: u16, final_attempt: bool) -> Verdict {
    if 200 <= status < 300 {
        Verdict::ReadBody
    } else if status == 429 {
        if final_attempt {
            Verdict::Fail(FailureKind::RateLimited)
        } else {
            Verdict::RetryAfterRateLimit
        }
    } else if status == 401 {
        Verdict::Fail(FailureKind::Auth(AuthErrorType::InvalidApiKey))
    } else if status == 403 {
        Verdict::Fail(FailureKind::Auth(AuthErrorType::QuotaExceeded))
    } else if 500 <= status < 600 {
        if final_attempt {
            Verdict::Fail(FailureKind::ServerError)
        } else {
            Verdict::Retry
        }
    } else {
        Verdict::Fail(FailureKind::UnexpectedStatus)
    }
}

/// What follows when no response arrived. Timeouts and failed connections
/// are retried unless the attempt was the last; any other failure of the
/// client ends the exchange.
pub open spec fn send_failure_verdict(
    is_timeout: bool,
    is_connect: bool,
    final_attempt: bool,
) -> Verdict {
    if is_timeout {
        if final_attempt {
            Verdict::Fail(FailureKind::Timeout)
        } else {
            Verdict::Retry
        }
    } else if is_connect {
        if final_attempt {
            Verdict::Fail(FailureKind::Connection)
        } else {
            Verdict::Retry
        }
    } else {
        Verdict::Fail(FailureKind::Transport)
    }
}

/// What follows from an HTTP status.
pub fn classify_status(status: u16, final_attempt: bool) -> (v: Verdict)
    ensures
        v == status_verdict(status, final_attempt),
{
    if 200 <= status && status < 300 {
        Verdict::ReadBody
    } else if status == 429 {
        if final_attempt {
            Verdict::Fail(FailureKind::RateLimited)
        } else {
            Verdict::RetryAfterRateLimit
        }
    } else if status == 401 {
        Verdict::Fail(FailureKind::Auth(AuthErrorType::InvalidApiKey))
    } else if status == 403 {
        Verdict::Fail(FailureKind::Auth(AuthErrorType::QuotaExceeded))
    } else if 500 <= status && status < 600 {
        if final_attempt {
            Verdict::Fail(FailureKind::ServerError)
        } else {
            Verdict::Retry
        }
    } else {
        Verdict::Fail(FailureKind::UnexpectedStatus)
    }
}

/// What follows when no response arrived.
pub fn classify_send_failure(is_timeout: bool, is_connect: bool, final_attempt: bool) -> (v:
    Verdict)
    ensures
        v == send_failure_verdict(is_timeout, is_connect, final_attempt),
{
    if is_timeout {
        if final_attempt {
            Verdict::Fail(FailureKind::Timeout)
        } else {
            Verdict::Retry
        }
    } else if is_connect {
        if final_attempt {
            Verdict::Fail(FailureKind::Connection)
        } else {
            Verdict::Retry
        }
    } else {
        Verdict::Fail(FailureKind::Transport)
    }
}

/// Authentication failures and unexpected statuses are never retried, and a
/// last attempt never leads to another.
pub proof fn lemma_status_verdict_terminal(status: u16, final_attempt: bool)
    ensures
        (status == 401 || status == 403) ==> status_verdict(status, final_attempt) is Fail,
        final_attempt ==> status_verdict(status, final_attempt) != Verdict::Retry
            && status_verdict(status, final_attempt) != Verdict::RetryAfterRateLimit,
        status_verdict(status, final_attempt) == Verdict::ReadBody <==> 200 <= status < 300,
{
}

/// Whether every byte is an ASCII decimal digit.
pub open spec fn all_digits(bytes: Seq<u8>) -> bool {
    forall|i: int| 0 <= i < bytes.len() ==> 48 <= #[trigger] bytes[i] <= 57
}

/// The number that a sequence of ASCII decimal digits denotes.
pub open spec fn digits_value(bytes: Seq<u8>) -> nat
    decreases bytes.len(),
{
    if bytes.len() == 0 {
        0
    } else {
        (digits_value(bytes.drop_last()) * 10 + (bytes.last() - 48)) as nat
    }
}

/// The seconds that the text of a `Retry-After` header denotes: decimal
/// digits after an optional plus sign, nothing else, within 64 bits.
pub open spec fn retry_after_seconds(bytes: Seq<u8>) -> Option<u64> {
    let digits = if bytes.len() > 0 && bytes[0] == 43 {
        bytes.skip(1)
    } else {
        bytes
    };
    if digits.len() == 0 || !all_digits(digits) || digits_value(digits) > u64::MAX {
        None
    } else {
        Some(digits_value(digits) as u64)
    }
}

proof fn lemma_digits_value_prefix(bytes: Seq<u8>, k: int)
    requires
        0 <= k <= bytes.len(),
        all_digits(bytes),
    ensures
        digits_value(bytes.take(k)) <= digits_value(bytes),
    decreases bytes.len(),
{
    if k == bytes.len() {
        assert(bytes.take(k) =~= bytes);
    } else {
        let shorter = bytes.drop_last();
        assert(all_digits(shorter)) by {
            assert forall|i: int| 0 <= i < shorter.len() implies 48 <= #[trigger] shorter[i]
                <= 57 by {
                assert(shorter[i] == bytes[i]);
            }
        }
        lemma_digits_value_prefix(shorter, k);
        assert(shorter.take(k) =~= bytes.take(k));
        assert(48 <= bytes[bytes.len() - 1] <= 57);
    }
}

/// Reads the seconds of a `Retry-After` header.
pub fn parse_retry_after(text: &str) -> (seconds: Option<u64>)
    ensures
        seconds == retry_after_seconds(bytes_of(text@)),
{
    let bytes = text.as_bytes();
    let n = bytes.len();
    let start: usize = if n > 0 && bytes[0] == 43 {
        1
    } else {
        0
    };
    let ghost digits = if bytes@.len() > 0 && bytes@[0] == 43 {
        bytes@.skip(1)
    } else {
        bytes@
    };
    assert(digits =~= bytes@.skip(start as int));
    if start == n {
        return None;
    }
    let mut acc: u128 = 0;
    let mut i: usize = start;
    assert(digits.take(0) =~= Seq::<u8>::empty());
    while i < n
        invariant
            start <= i <= n,
            n == bytes@.len(),
            bytes@ == text.spec_bytes(),
            digits == bytes@.skip(start as int),
            digits.len() == n - start,
            digits.len() > 0,
            retry_after_seconds(bytes@) == (if !all_digits(digits) || digits_value(digits)
                > u64::MAX {
                None
            } else {
                Some(digits_value(digits) as u64)
            }),
            all_digits(digits.take(i - start)),
            acc == digits_value(digits.take(i - start)),
            acc <= u64::MAX,
        decreases n - i,
    {
        let b = bytes[i];
        if b < 48 || b > 57 {
            assert(digits[i - start] == b);
            return None;
        }
        let ghost before = digits.take(i - start);
        let ghost after = digits.take(i - start + 1);
        proof {
            assert(after.drop_last() =~= before);
            assert(after.last() == b);
            assert(all_digits(after)) by {
                assert forall|j: int| 0 <= j < after.len() implies 48 <= #[trigger] after[j]
                    <= 57 by {
                    if j < before.len() {
                        assert(after[j] == before[j]);
                    }
                }
            }
        }
        acc = acc * 10 + (b - 48) as u128;
        if acc > u64::MAX as u128 {
            proof {
                if all_digits(digits) {
                    lemma_digits_value_prefix(digits, i - start + 1);
                }
            }
            return None;
        }
        i = i + 1;
    }
    assert(digits.take(n - start) =~= digits);
    Some(acc as u64)
}

/// The `error` member of a response body.
#[derive(Debug)]
pub struct RpcErrorObject {
    /// Its `code`, when that is an integer.
    pub code: Option<i64>,
    /// Its `message`, when that is a string.
    pub message: Option<String>,
}

/// What the caller observed after carrying out an action.
#[derive(Debug)]
pub enum TransportEvent {
    /// The time allowed for the attempt ran out.
    Elapsed,
    /// The HTTP client failed before a response arrived.
    SendFailed { failure: HttpFailure },
    /// The head of a response arrived: its status, the text of its
    /// `Retry-After` header if it has one, and the client's description of
    /// the status.
    Head { status: u16, retry_after: Option<String>, description: String },
    /// The body of the response is not JSON.
    BodyInvalid { reason: String },
    /// The body of the response is JSON: its `error` member if it has one,
    /// and its text.
    Body { error: Option<RpcErrorObject>, raw: String },
}

/// What the caller is to do next.
#[derive(Debug)]
pub enum TransportAction {
    /// Wait for `delay` if there is one, take a rate-limiter token and send
    /// the request under the time allowed for an attempt.
    Send { attempt: u32, delay: Option<Duration> },
    /// Read and parse the body of the response.
    ReadBody,
    /// The exchange has ended: with the body that was read last, or with an
    /// error.
    Done { result: Result<(), BlockProductionError> },
}

/// The state of one exchange with the endpoint.
#[derive(Debug)]
pub struct RetryState {
    /// How often and how long to try.
    pub policy: RetryPolicy,
    /// The endpoint asked.
    pub endpoint: String,
    /// The RPC method called.
    pub method: String,
    /// The attempt under way, counted from one.
    pub attempt: u32,
    /// Where the exchange stands.
    pub phase: Phase,
    /// Whether the endpoint answered any attempt with status 429.
    pub rate_limited: bool,
    /// One description for each failed attempt, in order.
    pub error_history: Vec<String>,
}

/// `"RPC <method> request"`.
pub open spec fn operation_text(method: Seq<char>) -> Seq<char> {
    "RPC "@ + method + " request"@
}

/// The description of an attempt that failed in the HTTP client.
pub open spec fn send_failure_note(attempt: u32, message: Seq<char>) -> Seq<char> {
    "HTTP error on attempt "@ + decimal_text(attempt as nat) + ": "@ + message
}

/// The description of an attempt that ran out of time.
pub open spec fn elapsed_note(attempt: u32, timeout: Duration) -> Seq<char> {
    "Request timeout on attempt "@ + decimal_text(attempt as nat) + " after "@
        + duration_debug_text(duration_nanos(timeout))
}

/// The description of an attempt answered with an error status.
pub open spec fn status_note(attempt: u32, status: u16) -> Seq<char> {
    "HTTP "@ + decimal_text(status as nat) + " error on attempt "@ + decimal_text(attempt as nat)
}

/// The description of an attempt whose body is not JSON.
pub open spec fn body_invalid_note(attempt: u32, reason: Seq<char>) -> Seq<char> {
    "JSON parsing error on attempt "@ + decimal_text(attempt as nat) + ": "@ + reason
}

/// The description of an attempt answered with an RPC error.
pub open spec fn rpc_error_note(attempt: u32, code: i32, message: Seq<char>) -> Seq<char> {
    "RPC error "@ + signed_decimal_text(code as int) + " on attempt "@ + decimal_text(
        attempt as nat,
    ) + ": "@ + message
}

/// The code of an RPC error: the one given, cut to 32 bits, or -1.
pub open spec fn rpc_code(code: Option<i64>) -> i32 {
    match code {
        Some(c) => c as i32,
        None => -1i32,
    }
}

/// The message of an RPC error: the one given, or a placeholder.
pub open spec fn rpc_message(message: Option<String>) -> Seq<char> {
    match message {
        Some(m) => m@,
        None => "Unknown RPC error"@,
    }
}

/// The wait before the next attempt after status 429 on `attempt`: the
/// seconds of the `Retry-After` header, or a tenth of a second for each
/// attempt made.
pub open spec fn rate_limit_wait_nanos(attempt: u32, retry_after: Option<String>) -> nat {
    match retry_after_header(retry_after) {
        Some(seconds) => seconds as nat * 1_000_000_000,
        None => 100 * attempt as nat * 1_000_000,
    }
}

/// The seconds of a `Retry-After` header, if the header is there and reads
/// as a number.
pub open spec fn retry_after_header(retry_after: Option<String>) -> Option<u64> {
    match retry_after {
        Some(text) => retry_after_seconds(bytes_of(text@)),
        None => None,
    }
}

impl RetryState {
    /// While the exchange runs, the attempt under way is one of those the
    /// policy allows.
    pub open spec fn wf(self) -> bool {
        self.phase != Phase::Finished ==> 1 <= self.attempt <= self.policy.max_attempts
    }

    /// An upper bound on the events that the exchange still takes: two for
    /// each attempt that may follow and for the one under way, one while a
    /// body is read, none once the exchange has ended.
    pub open spec fn events_left(self) -> nat {
        match self.phase {
            Phase::Finished => 0,
            Phase::ReadingBody => 1,
            Phase::Sending => (2 * (self.policy.max_attempts - self.attempt) + 2) as nat,
        }
    }

    /// Whether `action` is what a caller is to do in this state: send the
    /// attempt under way, read the body, or stop.
    pub open spec fn awaits(self, action: TransportAction) -> bool {
        match self.phase {
            Phase::Sending => action matches TransportAction::Send { attempt, .. } && attempt
                == self.attempt,
            Phase::ReadingBody => action is ReadBody,
            Phase::Finished => action is Done,
        }
    }

    /// Whether the attempt under way is the last the policy allows.
    pub open spec fn on_final_attempt(self) -> bool {
        self.attempt >= self.policy.max_attempts
    }

    /// Whether `e` is the error for a failure of kind `kind` on the attempt
    /// under way, given the status, the header and the description that
    /// came with the event.
    pub open spec fn failure_matches(
        self,
        kind: FailureKind,
        e: BlockProductionError,
        status: u16,
        retry_after: Option<String>,
        description: Option<HttpFailure>,
    ) -> bool {
        match kind {
            FailureKind::Timeout => {
                &&& e matches BlockProductionError::Timeout { duration, operation, timeout_type }
                &&& duration == self.policy.timeout
                &&& operation@ == operation_text(self.method@)
                &&& timeout_type == TimeoutType::Request
            },
            FailureKind::Connection => {
                &&& e matches BlockProductionError::ConnectionFailed {
                    endpoint,
                    source,
                    endpoint_reachable,
                }
                &&& endpoint@ == self.endpoint@
                &&& description matches Some(failure)
                &&& source@ == failure.message@
                &&& endpoint_reachable is None
            },
            FailureKind::Transport => {
                &&& e matches BlockProductionError::Http { source, context }
                &&& description == Some(source)
                &&& context matches Some(c)
                &&& c@ == operation_text(self.method@) + " attempt "@ + decimal_text(
                    self.attempt as nat,
                )
            },
            FailureKind::RateLimited => {
                &&& e matches BlockProductionError::RateLimit {
                    requests,
                    window,
                    limit,
                    retry_after: wait,
                }
                &&& requests == 0
                &&& limit == 0
                &&& duration_nanos(window) == 60_000_000_000
                &&& match (wait, retry_after_header(retry_after)) {
                    (Some(d), Some(seconds)) => duration_nanos(d) == seconds as nat
                        * 1_000_000_000,
                    (None, None) => true,
                    _ => false,
                }
            },
            FailureKind::Auth(auth) => {
                &&& e matches BlockProductionError::Auth { message, auth_type }
                &&& auth_type == auth
                &&& message@ == "HTTP "@ + decimal_text(status as nat)
                    + ": Authentication failed"@
            },
            FailureKind::ServerError => {
                &&& e matches BlockProductionError::Http { source, context }
                &&& description == Some(source)
                &&& context matches Some(c)
                &&& c@ == "Server error on attempt "@ + decimal_text(self.attempt as nat)
            },
            FailureKind::UnexpectedStatus => {
                &&& e matches BlockProductionError::Http { source, context }
                &&& description == Some(source)
                &&& context matches Some(c)
                &&& c@ == "HTTP error "@ + decimal_text(status as nat) + " on attempt "@
                    + decimal_text(self.attempt as nat)
            },
        }
    }

    /// Whether `next` and `action` are what follows from `verdict` in this
    /// state, where `note` describes the failed attempt.
    pub open spec fn follows(
        self,
        verdict: Verdict,
        next: RetryState,
        action: TransportAction,
        note: Seq<char>,
        status: u16,
        retry_after: Option<String>,
        description: Option<HttpFailure>,
    ) -> bool {
        &&& next.policy == self.policy
        &&& next.endpoint == self.endpoint
        &&& next.method == self.method
        &&& match verdict {
            Verdict::ReadBody => {
                &&& action is ReadBody
                &&& next.phase == Phase::ReadingBody
                &&& next.attempt == self.attempt
                &&& next.rate_limited == self.rate_limited
                &&& next.error_history == self.error_history
            },
            Verdict::Retry => {
                &&& action == (TransportAction::Send {
                    attempt: (self.attempt + 1) as u32,
                    delay: self.policy.backoff,
                })
                &&& next.phase == Phase::Sending
                &&& next.attempt == self.attempt + 1
                &&& next.rate_limited == self.rate_limited
                &&& texts_of(next.error_history@) == texts_of(self.error_history@).push(note)
            },
            Verdict::RetryAfterRateLimit => {
                &&& action matches TransportAction::Send { attempt, delay: Some(d) }
                &&& attempt == self.attempt + 1
                &&& duration_nanos(d) == rate_limit_wait_nanos(self.attempt, retry_after)
                &&& next.phase == Phase::Sending
                &&& next.attempt == self.attempt + 1
                &&& next.rate_limited
                &&& texts_of(next.error_history@) == texts_of(self.error_history@).push(note)
            },
            Verdict::Fail(kind) => {
                &&& action matches TransportAction::Done { result: Err(e) }
                &&& self.failure_matches(kind, e, status, retry_after, description)
                &&& next.phase == Phase::Finished
                &&& next.attempt == self.attempt
                &&& next.rate_limited == (self.rate_limited || kind == FailureKind::RateLimited)
                &&& texts_of(next.error_history@) == texts_of(self.error_history@).push(note)
            },
        }
    }

    /// Whether `next` and `action` end the exchange with the error that
    /// tells of a body that is not JSON.
    pub open spec fn ends_unreadable(
        self,
        next: RetryState,
        action: TransportAction,
        reason: Seq<char>,
    ) -> bool {
        &&& next.policy == self.policy
        &&& next.endpoint == self.endpoint
        &&& next.method == self.method
        &&& next.phase == Phase::Finished
        &&& next.attempt == self.attempt
        &&& next.rate_limited == self.rate_limited
        &&& texts_of(next.error_history@) == texts_of(self.error_history@).push(
            body_invalid_note(self.attempt, reason),
        )
        &&& action matches TransportAction::Done {
            result: Err(
                BlockProductionError::ResponseParsing {
                    reason: text,
                    response_sample,
                    expected_structure,
                },
            ),
        }
        &&& text@ == "Invalid JSON response: "@ + reason
        &&& response_sample is None
        &&& expected_structure matches Some(expected)
        &&& expected@ == "Valid JSON object with 'result' field"@
    }

    /// Whether `next` and `action` end the exchange with the RPC error that
    /// the body carried.
    pub open spec fn ends_with_rpc_error(
        self,
        next: RetryState,
        action: TransportAction,
        error: RpcErrorObject,
        raw: String,
    ) -> bool {
        &&& next.policy == self.policy
        &&& next.endpoint == self.endpoint
        &&& next.method == self.method
        &&& next.phase == Phase::Finished
        &&& next.attempt == self.attempt
        &&& next.rate_limited == self.rate_limited
        &&& texts_of(next.error_history@) == texts_of(self.error_history@).push(
            rpc_error_note(self.attempt, rpc_code(error.code), rpc_message(error.message)),
        )
        &&& action matches TransportAction::Done {
            result: Err(BlockProductionError::Rpc { code, message, method, raw_response }),
        }
        &&& code == rpc_code(error.code)
        &&& message@ == rpc_message(error.message)
        &&& method@ == self.method@
        &&& raw_response == Some(raw)
    }

    /// Whether `next` and `action` end the exchange with an internal error:
    /// the event does not answer the action that was handed out.
    pub open spec fn ends_out_of_turn(self, next: RetryState, action: TransportAction) -> bool {
        &&& next.policy == self.policy
        &&& next.endpoint == self.endpoint
        &&& next.method == self.method
        &&& next.phase == Phase::Finished
        &&& next.attempt == self.attempt
        &&& next.rate_limited == self.rate_limited
        &&& next.error_history == self.error_history
        &&& action matches TransportAction::Done {
            result: Err(BlockProductionError::Internal { message, location, debug_context }),
        }
        &&& message@ == "Transport event does not answer the pending action"@
        &&& location is None
        &&& debug_context is None
    }

    /// Whether `event` answers the action that this state waits on.
    pub open spec fn expects(self, event: TransportEvent) -> bool {
        match self.phase {
            Phase::Sending => event is Elapsed || event is SendFailed || event is Head,
            Phase::ReadingBody => event is BodyInvalid || event is Body,
            Phase::Finished => false,
        }
    }

    /// Begins an exchange. With no attempt allowed the exchange fails at
    /// once; otherwise the first attempt is sent without delay.
    pub fn start(policy: RetryPolicy, endpoint: String, method: String) -> (r: (
        RetryState,
        TransportAction,
    ))
        ensures
            r.0.wf(),
            r.0.awaits(r.1),
            r.0.policy == policy,
            r.0.endpoint == endpoint,
            r.0.method == method,
            !r.0.rate_limited,
            r.0.error_history@.len() == 0,
            policy.max_attempts > 0 ==> r.0.phase == Phase::Sending && r.0.attempt == 1 && r.1 == (
            TransportAction::Send { attempt: 1, delay: None }),
            policy.max_attempts == 0 ==> r.0.phase == Phase::Finished && r.0.attempt == 0 && (
            r.1 matches TransportAction::Done {
                result: Err(
                    BlockProductionError::RetryExhausted {
                        attempts,
                        total_duration,
                        last_error,
                        error_history,
                    },
                ),
            } && attempts == 0 && duration_nanos(total_duration) == 0 && error_history@.len() == 0
                && (*last_error matches BlockProductionError::Timeout {
                duration,
                operation,
                timeout_type,
            } && duration == policy.timeout && operation@ == operation_text(method@) && timeout_type
                == TimeoutType::Request)),
    {
        if policy.max_attempts == 0 {
            let mut operation = "RPC ".to_owned();
            operation.append(method.as_str());
            operation.append(" request");
            let last_error = BlockProductionError::Timeout {
                duration: policy.timeout,
                operation,
                timeout_type: TimeoutType::Request,
            };
            let state = RetryState {
                policy,
                endpoint,
                method,
                attempt: 0,
                phase: Phase::Finished,
                rate_limited: false,
                error_history: Vec::new(),
            };
            let action = TransportAction::Done {
                result: Err(
                    BlockProductionError::RetryExhausted {
                        attempts: 0,
                        total_duration: Duration::from_secs(0),
                        last_error: Box::new(last_error),
                        error_history: Vec::new(),
                    },
                ),
            };
            (state, action)
        } else {
            let state = RetryState {
                policy,
                endpoint,
                method,
                attempt: 1,
                phase: Phase::Sending,
                rate_limited: false,
                error_history: Vec::new(),
            };
            (state, TransportAction::Send { attempt: 1, delay: None })
        }
    }

    /// Takes what the caller observed and says what to do next.
    ///
    /// An event that does not answer the pending action ends the exchange
    /// with an internal error. Otherwise a timer that ran out counts as a
    /// timeout of the client; what follows is read off
    /// [`send_failure_verdict`] or [`status_verdict`]. A body that is not
    /// JSON and a body with an `error` member end the exchange at once: they
    /// are never retried. A body without one ends it in success: the body
    /// read is the result.
    pub fn step(self, event: TransportEvent) -> (r: (RetryState, TransportAction))
        requires
            self.wf(),
        ensures
            r.0.wf(),
            r.0.awaits(r.1),
            self.phase != Phase::Finished ==> r.0.events_left() < self.events_left(),
            !self.expects(event) ==> self.ends_out_of_turn(r.0, r.1),
            self.expects(event) ==> match event {
                TransportEvent::Elapsed => self.follows(
                    send_failure_verdict(true, false, self.on_final_attempt()),
                    r.0,
                    r.1,
                    elapsed_note(self.attempt, self.policy.timeout),
                    0,
                    None,
                    None,
                ),
                TransportEvent::SendFailed { failure } => self.follows(
                    send_failure_verdict(
                        failure.is_timeout,
                        failure.is_connect,
                        self.on_final_attempt(),
                    ),
                    r.0,
                    r.1,
                    send_failure_note(self.attempt, failure.message@),
                    0,
                    None,
                    Some(failure),
                ),
                TransportEvent::Head { status, retry_after, description } => self.follows(
                    status_verdict(status, self.on_final_attempt()),
                    r.0,
                    r.1,
                    status_note(self.attempt, status),
                    status,
                    retry_after,
                    Some(
                        HttpFailure {
                            is_timeout: false,
                            is_connect: false,
                            status: Some(status),
                            message: description,
                        },
                    ),
                ),
                TransportEvent::BodyInvalid { reason } => self.ends_unreadable(
                    r.0,
                    r.1,
                    reason@,
                ),
                TransportEvent::Body { error: Some(error), raw, .. } => self.ends_with_rpc_error(
                    r.0,
                    r.1,
                    error,
                    raw,
                ),
                TransportEvent::Body { error: None, .. } => {
                    &&& r.1 == (TransportAction::Done { result: Ok(()) })
                    &&& r.0.phase == Phase::Finished
                    &&& r.0.policy == self.policy
                    &&& r.0.endpoint == self.endpoint
                    &&& r.0.method == self.method
                    &&& r.0.attempt == self.attempt
                    &&& r.0.rate_limited == self.rate_limited
                    &&& r.0.error_history == self.error_history
                },
            },
    {
        let RetryState { policy, endpoint, method, attempt, phase, rate_limited, error_history } =
            self;
        let final_attempt = attempt >= policy.max_attempts;
        match (phase, event) {
            (Phase::Sending, TransportEvent::Elapsed) => {
                let note = elapsed_note_string(attempt, &policy.timeout);
                let verdict = classify_send_failure(true, false, final_attempt);
                let state = RetryState {
                    policy,
                    endpoint,
                    method,
                    attempt,
                    phase,
                    rate_limited,
                    error_history,
                };
                state.conclude(verdict, note, 0, None, None)
            },
            (Phase::Sending, TransportEvent::SendFailed { failure }) => {
                let note = send_failure_note_string(attempt, failure.message.as_str());
                let verdict = classify_send_failure(
                    failure.is_timeout,
                    failure.is_connect,
                    final_attempt,
                );
                let state = RetryState {
                    policy,
                    endpoint,
                    method,
                    attempt,
                    phase,
                    rate_limited,
                    error_history,
                };
                state.conclude(verdict, note, 0, None, Some(failure))
            },
            (Phase::Sending, TransportEvent::Head { status, retry_after, description }) => {
                let verdict = classify_status(status, final_attempt);
                let state = RetryState {
                    policy,
                    endpoint,
                    method,
                    attempt,
                    phase,
                    rate_limited,
                    error_history,
                };
                match verdict {
                    Verdict::ReadBody => {
                        let next = RetryState { phase: Phase::ReadingBody, ..state };
                        (next, TransportAction::ReadBody)
                    },
                    _ => {
                        let note = status_note_string(attempt, status);
                        let failure = HttpFailure {
                            is_timeout: false,
                            is_connect: false,
                            status: Some(status),
                            message: description,
                        };
                        state.conclude(verdict, note, status, retry_after, Some(failure))
                    },
                }
            },
            (Phase::ReadingBody, TransportEvent::BodyInvalid { reason }) => {
                let mut note = "JSON parsing error on attempt ".to_owned();
                push_decimal(&mut note, attempt as u128);
                note.append(": ");
                note.append(reason.as_str());
                let mut text = "Invalid JSON response: ".to_owned();
                text.append(reason.as_str());
                let mut history = error_history;
                let ghost earlier = history@;
                history.push(note);
                assert(texts_of(history@) =~= texts_of(earlier).push(
                    body_invalid_note(attempt, reason@),
                ));
                let next = RetryState {
                    policy,
                    endpoint,
                    method,
                    attempt,
                    phase: Phase::Finished,
                    rate_limited,
                    error_history: history,
                };
                let error = BlockProductionError::ResponseParsing {
                    reason: text,
                    response_sample: None,
                    expected_structure: Some("Valid JSON object with 'result' field".to_owned()),
                };
                (next, TransportAction::Done { result: Err(error) })
            },
            (Phase::ReadingBody, TransportEvent::Body { error: Some(error), raw }) => {
                let code: i32 = match error.code {
                    Some(c) => #[verifier::truncate]
                    (c as i32),
                    None => -1,
                };
                let message: String = match &error.message {
                    Some(m) => m.clone(),
                    None => "Unknown RPC error".to_owned(),
                };
                let mut note = "RPC error ".to_owned();
                push_signed_decimal(&mut note, code as i64);
                note.append(" on attempt ");
                push_decimal(&mut note, attempt as u128);
                note.append(": ");
                note.append(message.as_str());
                let mut history = error_history;
                let ghost earlier = history@;
                history.push(note);
                assert(texts_of(history@) =~= texts_of(earlier).push(
                    rpc_error_note(attempt, rpc_code(error.code), rpc_message(error.message)),
                ));
                let failed = BlockProductionError::Rpc {
                    code,
                    message,
                    method: method.clone(),
                    raw_response: Some(raw),
                };
                let next = RetryState {
                    policy,
                    endpoint,
                    method,
                    attempt,
                    phase: Phase::Finished,
                    rate_limited,
                    error_history: history,
                };
                (next, TransportAction::Done { result: Err(failed) })
            },
            (Phase::ReadingBody, TransportEvent::Body { error: None, .. }) => {
                let next = RetryState {
                    policy,
                    endpoint,
                    method,
                    attempt,
                    phase: Phase::Finished,
                    rate_limited,
                    error_history,
                };
                (next, TransportAction::Done { result: Ok(()) })
            },
            (_, _) => {
                let next = RetryState {
                    policy,
                    endpoint,
                    method,
                    attempt,
                    phase: Phase::Finished,
                    rate_limited,
                    error_history,
                };
                let error = BlockProductionError::Internal {
                    message: "Transport event does not answer the pending action".to_owned(),
                    location: None,
                    debug_context: None,
                };
                (next, TransportAction::Done { result: Err(error) })
            },
        }
    }

    /// Carries out a verdict other than `ReadBody` on a request under way.
    fn conclude(
        self,
        verdict: Verdict,
        note: String,
        status: u16,
        retry_after: Option<String>,
        description: Option<HttpFailure>,
    ) -> (r: (RetryState, TransportAction))
        requires
            self.wf(),
            self.phase == Phase::Sending,
            verdict != Verdict::ReadBody,
            (verdict == Verdict::Retry || verdict == Verdict::RetryAfterRateLimit)
                ==> !self.on_final_attempt(),
            description is None ==> verdict == Verdict::Retry || verdict == Verdict::Fail(
                FailureKind::Timeout,
            ),
        ensures
            r.0.wf(),
            r.0.awaits(r.1),
            r.0.events_left() < self.events_left(),
            self.follows(verdict, r.0, r.1, note@, status, retry_after, description),
    {
        let RetryState { policy, endpoint, method, attempt, rate_limited, error_history, .. } =
            self;
        let mut history = error_history;
        let ghost earlier = history@;
        let ghost note_text = note@;
        history.push(note);
        assert(texts_of(history@) =~= texts_of(earlier).push(note_text));
        match verdict {
            Verdict::ReadBody | Verdict::Retry => {
                let delay = policy.backoff;
                let next = RetryState {
                    policy,
                    endpoint,
                    method,
                    attempt: attempt + 1,
                    phase: Phase::Sending,
                    rate_limited,
                    error_history: history,
                };
                (next, TransportAction::Send { attempt: attempt + 1, delay })
            },
            Verdict::RetryAfterRateLimit => {
                let seconds = match &retry_after {
                    Some(text) => parse_retry_after(text.as_str()),
                    None => None,
                };
                let delay = match seconds {
                    Some(secs) => Duration::from_secs(secs),
                    None => Duration::from_millis(100 * (attempt as u64)),
                };
                let next = RetryState {
                    policy,
                    endpoint,
                    method,
                    attempt: attempt + 1,
                    phase: Phase::Sending,
                    rate_limited: true,
                    error_history: history,
                };
                (next, TransportAction::Send { attempt: attempt + 1, delay: Some(delay) })
            },
            Verdict::Fail(kind) => {
                let error = match kind {
                    FailureKind::Timeout => {
                        let mut operation = "RPC ".to_owned();
                        operation.append(method.as_str());
                        operation.append(" request");
                        BlockProductionError::Timeout {
                            duration: policy.timeout,
                            operation,
                            timeout_type: TimeoutType::Request,
                        }
                    },
                    FailureKind::Connection => BlockProductionError::ConnectionFailed {
                        endpoint: endpoint.clone(),
                        source: description.unwrap().message,
                        endpoint_reachable: None,
                    },
                    FailureKind::Transport => {
                        let mut context = "RPC ".to_owned();
                        context.append(method.as_str());
                        context.append(" request");
                        context.append(" attempt ");
                        push_decimal(&mut context, attempt as u128);
                        assert(context@ =~= operation_text(method@) + " attempt "@ + decimal_text(
                            attempt as nat,
                        ));
                        BlockProductionError::Http {
                            source: description.unwrap(),
                            context: Some(context),
                        }
                    },
                    FailureKind::RateLimited => {
                        let seconds = match &retry_after {
                            Some(text) => parse_retry_after(text.as_str()),
                            None => None,
                        };
                        BlockProductionError::RateLimit {
                            requests: 0,
                            window: Duration::from_secs(60),
                            limit: 0,
                            retry_after: match seconds {
                                Some(secs) => Some(Duration::from_secs(secs)),
                                None => None,
                            },
                        }
                    },
                    FailureKind::Auth(auth_type) => {
                        let mut message = "HTTP ".to_owned();
                        push_decimal(&mut message, status as u128);
                        message.append(": Authentication failed");
                        BlockProductionError::Auth { message, auth_type }
                    },
                    FailureKind::ServerError => {
                        let mut context = "Server error on attempt ".to_owned();
                        push_decimal(&mut context, attempt as u128);
                        BlockProductionError::Http {
                            source: description.unwrap(),
                            context: Some(context),
                        }
                    },
                    FailureKind::UnexpectedStatus => {
                        let mut context = "HTTP error ".to_owned();
                        push_decimal(&mut context, status as u128);
                        context.append(" on attempt ");
                        push_decimal(&mut context, attempt as u128);
                        BlockProductionError::Http {
                            source: description.unwrap(),
                            context: Some(context),
                        }
                    },
                };
                let limited = match kind {
                    FailureKind::RateLimited => true,
                    _ => rate_limited,
                };
                let next = RetryState {
                    policy,
                    endpoint,
                    method,
                    attempt,
                    phase: Phase::Finished,
                    rate_limited: limited,
                    error_history: history,
                };
                (next, TransportAction::Done { result: Err(error) })
            },
        }
    }

    /// Whether the state is well formed, as [`RetryState::step`] needs it
    /// to be; every state that this module hands out is.
    pub fn is_well_formed(&self) -> (ok: bool)
        ensures
            ok == self.wf(),
    {
        match self.phase {
            Phase::Finished => true,
            _ => 1 <= self.attempt && self.attempt <= self.policy.max_attempts,
        }
    }

    /// What is known of the exchange so far, for the caller's records.
    pub fn metadata(&self, response_time_ms: u64) -> (m: ResponseMetadata)
        ensures
            m.rpc_endpoint@ == self.endpoint@,
            m.response_time_ms == response_time_ms,
            m.retry_attempts == (if self.attempt == 0 {
                0
            } else {
                self.attempt - 1
            }),
            m.rate_limited == self.rate_limited,
    {
        ResponseMetadata {
            rpc_endpoint: self.endpoint.clone(),
            response_time_ms,
            retry_attempts: if self.attempt == 0 {
                0
            } else {
                self.attempt - 1
            },
            rate_limited: self.rate_limited,
        }
    }
}

fn elapsed_note_string(attempt: u32, timeout: &Duration) -> (note: String)
    ensures
        note@ == elapsed_note(attempt, *timeout),
{
    let mut note = "Request timeout on attempt ".to_owned();
    push_decimal(&mut note, attempt as u128);
    note.append(" after ");
    let span = duration_debug_string(timeout);
    note.append(span.as_str());
    note
}

fn send_failure_note_string(attempt: u32, message: &str) -> (note: String)
    ensures
        note@ == send_failure_note(attempt, message@),
{
    let mut note = "HTTP error on attempt ".to_owned();
    push_decimal(&mut note, attempt as u128);
    note.append(": ");
    note.append(message);
    note
}

fn status_note_string(attempt: u32, status: u16) -> (note: String)
    ensures
        note@ == status_note(attempt, status),
{
    let mut note = "HTTP ".to_owned();
    push_decimal(&mut note, status as u128);
    note.append(" error on attempt ");
    push_decimal(&mut note, attempt as u128);
    note
}

} // verus!
