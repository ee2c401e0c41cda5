//! Client configuration: the value object, its presets, its builder and
//! its validation.

use vstd::prelude::*;
use vstd::string::StringExecFns;
use std::time::Duration;
use crate::error::BlockProductionError;
use crate::text::{bytes_of, contains, has_prefix, has_substring, starts_with, str_eq};
use crate::timing::duration_nanos;

verus! {

/// A limit on the rate of outgoing requests.
#[derive(Debug, Clone, Copy, PartialEq, Eq, Structural)]
pub struct RateLimit {
    /// Requests allowed in one second; never zero.
    pub requests_per_second: u32,
}

impl RateLimit {
    /// The limit for a number of requests in a second; a rate of zero means
    /// no limit, and requests pass at once.
    pub fn new(requests_per_second: u32) -> (limit: Option<RateLimit>)
        ensures
            limit == (if requests_per_second == 0 {
                None
            } else {
                Some(RateLimit { requests_per_second })
            }),
    {
        if requests_per_second == 0 {
            None
        } else {
            Some(RateLimit { requests_per_second })
        }
    }
}

/// Custom HTTP headers: names with their values, each name once.
#[derive(Debug)]
pub struct Headers {
    entries: Vec<(String, String)>,
}

/// The texts of names and values.
pub open spec fn header_texts(entries: Seq<(String, String)>) -> Seq<(Seq<char>, Seq<char>)> {
    entries.map_values(|entry: (String, String)| (entry.0@, entry.1@))
}

/// Whether no name occurs twice among the headers.
pub open spec fn distinct_names(headers: Seq<(Seq<char>, Seq<char>)>) -> bool {
    forall|i: int, j: int|
        0 <= i < j < headers.len() ==> (#[trigger] headers[i]).0 != (#[trigger] headers[j]).0
}

/// Whether `name` is the name of one of the headers.
pub open spec fn has_name(headers: Seq<(Seq<char>, Seq<char>)>, name: Seq<char>) -> bool {
    exists|i: int| 0 <= i < headers.len() && (#[trigger] headers[i]).0 == name
}

/// The position of the header `name`, if it is set.
pub open spec fn position_of(headers: Seq<(Seq<char>, Seq<char>)>, name: Seq<char>) -> int {
    choose|i: int| 0 <= i < headers.len() && (#[trigger] headers[i]).0 == name
}

/// The headers with `name` set to `value`: a header that was set keeps its
/// place and has its value replaced; a new one goes to the end.
pub open spec fn with_header(
    headers: Seq<(Seq<char>, Seq<char>)>,
    name: Seq<char>,
    value: Seq<char>,
) -> Seq<(Seq<char>, Seq<char>)> {
    if has_name(headers, name) {
        headers.update(position_of(headers, name), (name, value))
    } else {
        headers.push((name, value))
    }
}

impl Headers {
    /// The headers as a sequence of names and values, in the order in
    /// which the names were first set.
    pub closed spec fn view(&self) -> Seq<(Seq<char>, Seq<char>)> {
        header_texts(self.entries@)
    }

    #[verifier::type_invariant]
    spec fn names_are_distinct(&self) -> bool {
        distinct_names(header_texts(self.entries@))
    }

    /// No headers.
    pub fn new() -> (h: Self)
        ensures
            h@.len() == 0,
    {
        Headers { entries: Vec::new() }
    }

    /// The number of headers.
    pub fn len(&self) -> (n: usize)
        ensures
            n == self@.len(),
    {
        self.entries.len()
    }

    /// Whether there is no header.
    pub fn is_empty(&self) -> (r: bool)
        ensures
            r == (self@.len() == 0),
    {
        self.entries.len() == 0
    }

    /// The names and values, in the order in which the names were first
    /// set; no name occurs twice.
    pub fn entries(&self) -> (e: &Vec<(String, String)>)
        ensures
            header_texts(e@) == self@,
            distinct_names(self@),
    {
        proof {
            use_type_invariant(self);
        }
        &self.entries
    }

    fn find(&self, name: &str) -> (at: Option<usize>)
        ensures
            match at {
                Some(i) => i < self@.len() && self@[i as int].0 == name@ && position_of(
                    self@,
                    name@,
                ) == i,
                None => !has_name(self@, name@),
            },
    {
        proof {
            use_type_invariant(self);
        }
        let n = self.entries.len();
        let mut i: usize = 0;
        while i < n
            invariant
                n == self.entries@.len(),
                i <= n,
                distinct_names(self@),
                forall|j: int| 0 <= j < i ==> (#[trigger] self@[j]).0 != name@,
            decreases n - i,
        {
            assert(self@[i as int].0 == self.entries@[i as int].0@);
            if str_eq(self.entries[i].0.as_str(), name) {
                proof {
                    let chosen = position_of(self@, name@);
                    assert(0 <= chosen < self@.len() && self@[chosen].0 == name@);
                    if chosen < i {
                        assert(self@[chosen].0 != self@[i as int].0);
                    } else if chosen > i {
                        assert(self@[i as int].0 != self@[chosen].0);
                    }
                }
                return Some(i);
            }
            i = i + 1;
        }
        None
    }

    /// The value of the header `name`, if it is set.
    pub fn get(&self, name: &str) -> (value: Option<&String>)
        ensures
            value is Some <==> has_name(self@, name@),
            value matches Some(v) ==> v@ == self@[position_of(self@, name@)].1,
    {
        match self.find(name) {
            Some(i) => {
                assert(self@[i as int].1 == self.entries@[i as int].1@);
                Some(&self.entries[i].1)
            },
            None => None,
        }
    }

    /// The headers with `name` set to `value`: a header that was set keeps
    /// its place and has its value replaced; a new one goes to the end.
    pub fn insert(self, name: String, value: String) -> (h: Self)
        ensures
            h@ == with_header(self@, name@, value@),
    {
        proof {
            use_type_invariant(&self);
        }
        let found = self.find(name.as_str());
        let mut entries = self.entries;
        let ghost before = entries@;
        match found {
            Some(i) => {
                entries.remove(i);
                entries.insert(i, (name, value));
                proof {
                    assert(header_texts(entries@) =~= header_texts(before).update(
                        i as int,
                        (name@, value@),
                    ));
                    assert(distinct_names(header_texts(entries@))) by {
                        let after = header_texts(entries@);
                        assert forall|a: int, b: int| 0 <= a < b < after.len() implies (
                        #[trigger] after[a]).0 != (#[trigger] after[b]).0 by {
                            assert(after[a].0 == header_texts(before)[a].0);
                            assert(after[b].0 == header_texts(before)[b].0);
                        }
                    }
                }
                Headers { entries }
            },
            None => {
                entries.push((name, value));
                proof {
                    assert(header_texts(entries@) =~= header_texts(before).push((name@, value@)));
                    assert(distinct_names(header_texts(entries@))) by {
                        let after = header_texts(entries@);
                        assert forall|a: int, b: int| 0 <= a < b < after.len() implies (
                        #[trigger] after[a]).0 != (#[trigger] after[b]).0 by {
                            assert(after[a] == header_texts(before)[a]);
                            if b < before.len() {
                                assert(after[b] == header_texts(before)[b]);
                            }
                        }
                    }
                }
                Headers { entries }
            },
        }
    }

    /// A copy of the headers.
    pub fn duplicate(&self) -> (h: Self)
        ensures
            h@ == self@,
    {
        proof {
            use_type_invariant(self);
        }
        let n = self.entries.len();
        let mut entries: Vec<(String, String)> = Vec::new();
        let mut i: usize = 0;
        while i < n
            invariant
                n == self.entries@.len(),
                i <= n,
                entries@ == self.entries@.take(i as int),
            decreases n - i,
        {
            let pair = &self.entries[i];
            entries.push((pair.0.clone(), pair.1.clone()));
            assert(entries@ =~= self.entries@.take(i + 1));
            i = i + 1;
        }
        assert(entries@ =~= self.entries@);
        Headers { entries }
    }
}

/// Configuration of a client.
#[derive(Debug)]
pub struct ClientConfig {
    /// URL of the RPC endpoint.
    pub rpc_endpoint: String,
    /// Time allowed for each attempt.
    pub timeout: Duration,
    /// Attempts to make for each request.
    pub retry_attempts: u32,
    /// Limit on the rate of requests; without one, requests pass at once.
    pub rate_limiter: Option<RateLimit>,
    /// Requests that may be under way at the same time.
    pub max_concurrent_requests: usize,
    /// Custom HTTP headers.
    pub headers: Headers,
    /// Wait between attempts after a timeout, a failed connection or a
    /// server error; by default the next attempt follows at once.
    pub retry_backoff: Option<Duration>,
}

impl ClientConfig {
    /// Whether the configuration has the given settings and the default
    /// endpoint, without headers.
    pub open spec fn is_preset(
        self,
        timeout_secs: nat,
        retry_attempts: u32,
        rate: u32,
        max_concurrent_requests: usize,
    ) -> bool {
        &&& self.rpc_endpoint@ == "https://api.mainnet-beta.solana.com"@
        &&& duration_nanos(self.timeout) == timeout_secs * 1_000_000_000
        &&& self.retry_attempts == retry_attempts
        &&& self.rate_limiter == Some(RateLimit { requests_per_second: rate })
        &&& self.max_concurrent_requests == max_concurrent_requests
        &&& self.headers@.len() == 0
        &&& self.retry_backoff is None
    }

    fn preset(
        timeout_secs: u64,
        retry_attempts: u32,
        rate: u32,
        max_concurrent_requests: usize,
    ) -> (b: ClientConfigBuilder)
        requires
            rate > 0,
        ensures
            b.config.is_preset(timeout_secs as nat, retry_attempts, rate, max_concurrent_requests),
    {
        ClientConfigBuilder::new().timeout(Duration::from_secs(timeout_secs)).retry_attempts(
            retry_attempts,
        ).rate_limit(rate).max_concurrent_requests(max_concurrent_requests)
    }

    /// A builder that starts from the default configuration.
    pub fn builder() -> (b: ClientConfigBuilder)
        ensures
            b.config.is_default(),
    {
        ClientConfigBuilder::new()
    }

    /// Whether the configuration is the default one: the public mainnet
    /// endpoint, thirty seconds, three attempts, ten concurrent requests, no
    /// rate limit, no headers and no wait between attempts.
    pub open spec fn is_default(self) -> bool {
        &&& self.rpc_endpoint@ == "https://api.mainnet-beta.solana.com"@
        &&& duration_nanos(self.timeout) == 30_000_000_000
        &&& self.retry_attempts == 3
        &&& self.rate_limiter is None
        &&& self.max_concurrent_requests == 10
        &&& self.headers@.len() == 0
        &&& self.retry_backoff is None
    }

    /// Settings for public endpoints: patient and slow.
    pub fn public_rpc_config() -> (b: ClientConfigBuilder)
        ensures
            b.config.is_preset(60, 5, 2, 5),
    {
        Self::preset(60, 5, 2, 5)
    }

    /// Settings for private or paid endpoints.
    pub fn private_rpc_config() -> (b: ClientConfigBuilder)
        ensures
            b.config.is_preset(30, 3, 10, 20),
    {
        Self::preset(30, 3, 10, 20)
    }

    /// Settings for callers that ask often.
    pub fn high_frequency_config() -> (b: ClientConfigBuilder)
        ensures
            b.config.is_preset(15, 2, 50, 50),
    {
        Self::preset(15, 2, 50, 50)
    }

    /// Settings for batch processing.
    pub fn batch_processing_config() -> (b: ClientConfigBuilder)
        ensures
            b.config.is_preset(120, 5, 5, 100),
    {
        Self::preset(120, 5, 5, 100)
    }

    /// Settings for development.
    pub fn development_config() -> (b: ClientConfigBuilder)
        ensures
            b.config.is_preset(60, 1, 1, 5),
    {
        Self::preset(60, 1, 1, 5)
    }

    /// Settings for production at scale.
    pub fn enterprise_config() -> (b: ClientConfigBuilder)
        ensures
            b.config.is_preset(45, 3, 25, 30),
    {
        Self::preset(45, 3, 25, 30)
    }

    /// Settings for Helius endpoints.
    pub fn helius_config() -> (b: ClientConfigBuilder)
        ensures
            b.config.is_preset(30, 3, 20, 25),
    {
        Self::preset(30, 3, 20, 25)
    }

    /// Settings for QuickNode endpoints.
    pub fn quicknode_config() -> (b: ClientConfigBuilder)
        ensures
            b.config.is_preset(30, 3, 15, 20),
    {
        Self::preset(30, 3, 15, 20)
    }

    /// Settings for Alchemy endpoints.
    pub fn alchemy_config() -> (b: ClientConfigBuilder)
        ensures
            b.config.is_preset(30, 3, 25, 30),
    {
        Self::preset(30, 3, 25, 30)
    }

    /// Whether the configuration holds the settings that fit the endpoint,
    /// told by what its URL contains: the public mainnet host, `helius`,
    /// `quicknode` or `alchemy`, in this order; any other endpoint gets the
    /// settings for private endpoints.
    pub open spec fn is_auto_config(self, rpc_endpoint: Seq<char>) -> bool {
        let url = bytes_of(rpc_endpoint);
        let (timeout_secs, retry_attempts, rate, concurrent) = if has_substring(
            url,
            bytes_of("mainnet-beta.solana.com"@),
        ) {
            (60nat, 5u32, 2u32, 5usize)
        } else if has_substring(url, bytes_of("helius"@)) {
            (30nat, 3u32, 20u32, 25usize)
        } else if has_substring(url, bytes_of("quicknode"@)) {
            (30nat, 3u32, 15u32, 20usize)
        } else if has_substring(url, bytes_of("alchemy"@)) {
            (30nat, 3u32, 25u32, 30usize)
        } else {
            (30nat, 3u32, 10u32, 20usize)
        };
        &&& self.rpc_endpoint@ == rpc_endpoint
        &&& duration_nanos(self.timeout) == timeout_secs * 1_000_000_000
        &&& self.retry_attempts == retry_attempts
        &&& self.rate_limiter == Some(RateLimit { requests_per_second: rate })
        &&& self.max_concurrent_requests == concurrent
        &&& self.headers@.len() == 0
        &&& self.retry_backoff is None
    }

    /// The settings that fit the endpoint, told by what its URL contains:
    /// the public mainnet host, `helius`, `quicknode` or `alchemy`, in this
    /// order; any other endpoint gets the settings for private endpoints.
    pub fn auto_config(rpc_endpoint: &str) -> (b: ClientConfigBuilder)
        ensures
            b.config.is_auto_config(rpc_endpoint@),
    {
        let builder = if contains(rpc_endpoint, "mainnet-beta.solana.com") {
            Self::public_rpc_config()
        } else if contains(rpc_endpoint, "helius") {
            Self::helius_config()
        } else if contains(rpc_endpoint, "quicknode") {
            Self::quicknode_config()
        } else if contains(rpc_endpoint, "alchemy") {
            Self::alchemy_config()
        } else {
            Self::private_rpc_config()
        };
        builder.rpc_endpoint(rpc_endpoint.to_owned())
    }

    /// A copy of the configuration that starts without a rate limiter: a
    /// limiter belongs to one client and is not shared by copying.
    pub fn duplicate(&self) -> (c: Self)
        ensures
            c.rpc_endpoint == self.rpc_endpoint,
            c.timeout == self.timeout,
            c.retry_attempts == self.retry_attempts,
            c.rate_limiter is None,
            c.max_concurrent_requests == self.max_concurrent_requests,
            c.headers@ == self.headers@,
            c.retry_backoff == self.retry_backoff,
    {
        ClientConfig {
            rpc_endpoint: self.rpc_endpoint.clone(),
            timeout: self.timeout,
            retry_attempts: self.retry_attempts,
            rate_limiter: None,
            max_concurrent_requests: self.max_concurrent_requests,
            headers: self.headers.duplicate(),
            retry_backoff: self.retry_backoff,
        }
    }
}

impl Clone for ClientConfig {
    fn clone(&self) -> (c: Self)
        ensures
            c.rpc_endpoint == self.rpc_endpoint,
            c.timeout == self.timeout,
            c.retry_attempts == self.retry_attempts,
            c.rate_limiter is None,
            c.max_concurrent_requests == self.max_concurrent_requests,
            c.headers@ == self.headers@,
            c.retry_backoff == self.retry_backoff,
    {
        self.duplicate()
    }
}

impl Default for ClientConfig {
    fn default() -> (c: Self)
        ensures
            c.is_default(),
    {
        ClientConfig {
            rpc_endpoint: "https://api.mainnet-beta.solana.com".to_owned(),
            timeout: Duration::from_secs(30),
            retry_attempts: 3,
            rate_limiter: None,
            max_concurrent_requests: 10,
            headers: Headers::new(),
            retry_backoff: None,
        }
    }
}

/// Builder of a [`ClientConfig`].
#[derive(Debug)]
pub struct ClientConfigBuilder {
    pub config: ClientConfig,
}

impl ClientConfigBuilder {
    /// A builder that starts from the default configuration.
    pub fn new() -> (b: Self)
        ensures
            b.config.is_default(),
    {
        ClientConfigBuilder { config: ClientConfig::default() }
    }

    /// Sets the endpoint.
    pub fn rpc_endpoint(self, endpoint: String) -> (b: Self)
        ensures
            b.config == (ClientConfig { rpc_endpoint: endpoint, ..self.config }),
    {
        let mut b = self;
        b.config.rpc_endpoint = endpoint;
        b
    }

    /// Sets the time allowed for each attempt.
    pub fn timeout(self, timeout: Duration) -> (b: Self)
        ensures
            b.config == (ClientConfig { timeout, ..self.config }),
    {
        let mut b = self;
        b.config.timeout = timeout;
        b
    }

    /// Sets the number of attempts.
    pub fn retry_attempts(self, attempts: u32) -> (b: Self)
        ensures
            b.config == (ClientConfig { retry_attempts: attempts, ..self.config }),
    {
        let mut b = self;
        b.config.retry_attempts = attempts;
        b
    }

    /// Limits the rate to `requests_per_second`; zero changes nothing.
    pub fn rate_limit(self, requests_per_second: u32) -> (b: Self)
        ensures
            b.config == (ClientConfig {
                rate_limiter: if requests_per_second == 0 {
                    self.config.rate_limiter
                } else {
                    Some(RateLimit { requests_per_second })
                },
                ..self.config
            }),
    {
        let mut b = self;
        if requests_per_second != 0 {
            b.config.rate_limiter = Some(RateLimit { requests_per_second });
        }
        b
    }

    /// Sets the number of requests that may be under way at once.
    pub fn max_concurrent_requests(self, max: usize) -> (b: Self)
        ensures
            b.config == (ClientConfig { max_concurrent_requests: max, ..self.config }),
    {
        let mut b = self;
        b.config.max_concurrent_requests = max;
        b
    }

    /// Sets the wait between attempts after a timeout, a failed connection
    /// or a server error.
    pub fn retry_backoff(self, backoff: Duration) -> (b: Self)
        ensures
            b.config == (ClientConfig { retry_backoff: Some(backoff), ..self.config }),
    {
        let mut b = self;
        b.config.retry_backoff = Some(backoff);
        b
    }

    /// Sets a custom header; a header of the same name is replaced.
    pub fn add_header(self, key: String, value: String) -> (b: Self)
        ensures
            b.config.rpc_endpoint == self.config.rpc_endpoint,
            b.config.timeout == self.config.timeout,
            b.config.retry_attempts == self.config.retry_attempts,
            b.config.rate_limiter == self.config.rate_limiter,
            b.config.max_concurrent_requests == self.config.max_concurrent_requests,
            b.config.retry_backoff == self.config.retry_backoff,
            b.config.headers@ == with_header(self.config.headers@, key@, value@),
    {
        let ClientConfig {
            rpc_endpoint,
            timeout,
            retry_attempts,
            rate_limiter,
            max_concurrent_requests,
            headers,
            retry_backoff,
        } = self.config;
        ClientConfigBuilder {
            config: ClientConfig {
                rpc_endpoint,
                timeout,
                retry_attempts,
                rate_limiter,
                max_concurrent_requests,
                headers: headers.insert(key, value),
                retry_backoff,
            },
        }
    }

    /// The configuration built.
    pub fn build(self) -> (c: ClientConfig)
        ensures
            c == self.config,
    {
        self.config
    }
}

impl Default for ClientConfigBuilder {
    fn default() -> (b: Self)
        ensures
            b.config.is_default(),
    {
        Self::new()
    }
}

/// Whether a byte may stand in the name of an HTTP header: a letter, a
/// digit or one of ``! # $ % & ' * + - . ^ _ ` | ~``.
pub open spec fn is_header_name_byte(b: u8) -> bool {
    b == 33 || (35 <= b <= 39) || b == 42 || b == 43 || b == 45 || b == 46 || (48 <= b <= 57) || (65
        <= b <= 90) || (94 <= b <= 122) || b == 124 || b == 126
}

/// Whether the bytes are accepted as the name of an HTTP header: between 1
/// and 65535 bytes, each of which may stand in a name.
pub open spec fn header_name_accepted(name: Seq<u8>) -> bool {
    &&& 1 <= name.len() <= 65535
    &&& forall|i: int| 0 <= i < name.len() ==> is_header_name_byte(#[trigger] name[i])
}

/// Whether a byte may stand in the value of an HTTP header: a tab, or any
/// byte from 32 on except 127.
pub open spec fn is_header_value_byte(b: u8) -> bool {
    (b >= 32 && b != 127) || b == 9
}

/// Whether the bytes are accepted as the value of an HTTP header.
pub open spec fn header_value_accepted(value: Seq<u8>) -> bool {
    forall|i: int| 0 <= i < value.len() ==> is_header_value_byte(#[trigger] value[i])
}

/// `reqwest::header::HeaderName::from_bytes` on the bytes of `name`, with
/// its error turned into text. The contract states which names the
/// function accepts and the text of its error, as its source has them.
/// Not proved here.
#[verifier::external_body]
fn header_name_problem(name: &str) -> (problem: Option<String>)
    ensures
        problem is None <==> header_name_accepted(bytes_of(name@)),
        problem matches Some(text) ==> text@ == "invalid HTTP header name"@,
{
    reqwest::header::HeaderName::from_bytes(name.as_bytes()).err().map(|e| e.to_string())
}

/// `reqwest::header::HeaderValue::from_str`, with its error turned into
/// text. The contract states which values the function accepts and the
/// text of its error, as its source has them. Not proved here.
#[verifier::external_body]
fn header_value_problem(value: &str) -> (problem: Option<String>)
    ensures
        problem is None <==> header_value_accepted(bytes_of(value@)),
        problem matches Some(text) ==> text@ == "failed to parse header value"@,
{
    reqwest::header::HeaderValue::from_str(value).err().map(|e| e.to_string())
}

/// Whether an endpoint is a URL with an `http` or `https` scheme.
pub open spec fn endpoint_accepted(endpoint: Seq<u8>) -> bool {
    has_prefix(endpoint, bytes_of("http://"@)) || has_prefix(endpoint, bytes_of("https://"@))
}

/// Whether the name and the value of a header are both accepted.
pub open spec fn header_accepted(header: (Seq<char>, Seq<char>)) -> bool {
    header_name_accepted(bytes_of(header.0)) && header_value_accepted(bytes_of(header.1))
}

/// Whether `e` is a configuration error about `field` with the given
/// message and suggestion.
pub open spec fn is_config_error(
    e: BlockProductionError,
    message: Seq<char>,
    field: Seq<char>,
    suggestion: Seq<char>,
) -> bool {
    &&& e matches BlockProductionError::Config { message: m, field: Some(f), suggestion: Some(s) }
    &&& m@ == message
    &&& f@ == field
    &&& s@ == suggestion
}

/// Whether header `i` is the first that is not accepted and `e` is the
/// configuration error that reports it: for its name if that is refused,
/// for its value otherwise.
pub open spec fn is_first_refusal(
    headers: Seq<(Seq<char>, Seq<char>)>,
    i: int,
    e: BlockProductionError,
) -> bool {
    &&& !header_accepted(headers[i])
    &&& forall|j: int| 0 <= j < i ==> header_accepted(#[trigger] headers[j])
    &&& if !header_name_accepted(bytes_of(headers[i].0)) {
        is_config_error(
            e,
            "Invalid header name '"@ + headers[i].0 + "': invalid HTTP header name"@,
            "headers"@,
            "Use valid HTTP header names (alphanumeric and hyphens)"@,
        )
    } else {
        is_config_error(
            e,
            "Invalid header value '"@ + headers[i].1 + "': failed to parse header value"@,
            "headers"@,
            "Header values must be valid ASCII"@,
        )
    }
}

/// Whether `e` is the configuration error that refuses `endpoint`: for
/// being empty, or for its scheme.
pub open spec fn is_endpoint_refusal(e: BlockProductionError, endpoint: Seq<char>) -> bool {
    if endpoint.len() == 0 {
        is_config_error(
            e,
            "RPC endpoint cannot be empty"@,
            "rpc_endpoint"@,
            "Provide a valid Solana RPC endpoint URL"@,
        )
    } else {
        is_config_error(
            e,
            "RPC endpoint must start with http:// or https://"@,
            "rpc_endpoint"@,
            "Use a complete URL like https://api.mainnet-beta.solana.com"@,
        )
    }
}

/// Checks the endpoint of a client: it must not be empty and must begin
/// with `http://` or `https://`.
pub fn validate_endpoint(rpc_endpoint: &str) -> (result: Result<(), BlockProductionError>)
    ensures
        result is Ok <==> endpoint_accepted(bytes_of(rpc_endpoint@)),
        result matches Err(e) ==> is_endpoint_refusal(e, rpc_endpoint@),
{
    if rpc_endpoint.is_empty() {
        proof {
            lemma_empty_text_has_no_bytes(rpc_endpoint@);
            reveal_strlit("http://");
            reveal_strlit("https://");
            lemma_text_has_bytes("http://"@);
            lemma_text_has_bytes("https://"@);
        }
        return Err(
            BlockProductionError::config_error(
                "RPC endpoint cannot be empty",
                Some("rpc_endpoint"),
                Some("Provide a valid Solana RPC endpoint URL"),
            ),
        );
    }
    if !starts_with(rpc_endpoint, "http://") && !starts_with(rpc_endpoint, "https://") {
        return Err(
            BlockProductionError::config_error(
                "RPC endpoint must start with http:// or https://",
                Some("rpc_endpoint"),
                Some("Use a complete URL like https://api.mainnet-beta.solana.com"),
            ),
        );
    }
    Ok(())
}

/// A text without characters has no bytes.
pub proof fn lemma_empty_text_has_no_bytes(text: Seq<char>)
    requires
        text.len() == 0,
    ensures
        bytes_of(text).len() == 0,
{
    assert(text =~= Seq::<char>::empty());
    reveal_with_fuel(vstd::utf8::encode_utf8, 2);
}

/// A text with characters has bytes.
pub proof fn lemma_text_has_bytes(text: Seq<char>)
    requires
        text.len() > 0,
    ensures
        bytes_of(text).len() > 0,
{
    if bytes_of(text).len() == 0 {
        vstd::utf8::encode_utf8_decode_utf8(text);
        assert(bytes_of(text) =~= Seq::<u8>::empty());
        reveal_with_fuel(vstd::utf8::decode_utf8, 2);
        assert(vstd::utf8::decode_utf8(Seq::<u8>::empty()).len() == 0);
    }
}

/// Whether every header is accepted.
pub open spec fn headers_accepted(headers: Seq<(Seq<char>, Seq<char>)>) -> bool {
    forall|i: int| 0 <= i < headers.len() ==> header_accepted(#[trigger] headers[i])
}

/// Whether `e` is the configuration error that reports the first header
/// that is not accepted.
pub open spec fn is_header_refusal(
    e: BlockProductionError,
    headers: Seq<(Seq<char>, Seq<char>)>,
) -> bool {
    exists|i: int| 0 <= i < headers.len() && is_first_refusal(headers, i, e)
}

/// Whether `e` is the configuration error that refuses a configuration
/// with this endpoint and these headers: for the endpoint if that is not
/// accepted, for the first header that is not accepted otherwise.
pub open spec fn is_refusal(
    e: BlockProductionError,
    endpoint: Seq<char>,
    headers: Seq<(Seq<char>, Seq<char>)>,
) -> bool {
    if !endpoint_accepted(bytes_of(endpoint)) {
        is_endpoint_refusal(e, endpoint)
    } else {
        is_header_refusal(e, headers)
    }
}

/// Checks the custom headers: every name and every value must be accepted
/// by the HTTP client. The first header that is not accepted is reported,
/// its name before its value.
pub fn validate_headers(headers: &Headers) -> (result: Result<(), BlockProductionError>)
    ensures
        result is Ok <==> headers_accepted(headers@),
        result matches Err(e) ==> is_header_refusal(e, headers@),
{
    let entries = headers.entries();
    let n = entries.len();
    let mut i: usize = 0;
    while i < n
        invariant
            n == entries@.len(),
            header_texts(entries@) == headers@,
            i <= n,
            forall|j: int| 0 <= j < i ==> header_accepted(#[trigger] headers@[j]),
        decreases n - i,
    {
        let name = entries[i].0.as_str();
        let value = entries[i].1.as_str();
        assert(headers@[i as int] == (name@, value@));
        match header_name_problem(name) {
            Some(problem) => {
                let mut message = "Invalid header name '".to_owned();
                message.append(name);
                message.append("': ");
                message.append(problem.as_str());
                proof {
                    reveal_strlit("': ");
                    reveal_strlit("': invalid HTTP header name");
                    reveal_strlit("invalid HTTP header name");
                    assert(message@ =~= "Invalid header name '"@ + name@
                        + "': invalid HTTP header name"@);
                }
                let error = BlockProductionError::Config {
                    message,
                    field: Some("headers".to_owned()),
                    suggestion: Some(
                        "Use valid HTTP header names (alphanumeric and hyphens)".to_owned(),
                    ),
                };
                assert(is_first_refusal(headers@, i as int, error));
                return Err(error);
            },
            None => {},
        }
        match header_value_problem(value) {
            Some(problem) => {
                let mut message = "Invalid header value '".to_owned();
                message.append(value);
                message.append("': ");
                message.append(problem.as_str());
                proof {
                    reveal_strlit("': ");
                    reveal_strlit("': failed to parse header value");
                    reveal_strlit("failed to parse header value");
                    assert(message@ =~= "Invalid header value '"@ + value@
                        + "': failed to parse header value"@);
                }
                let error = BlockProductionError::Config {
                    message,
                    field: Some("headers".to_owned()),
                    suggestion: Some("Header values must be valid ASCII".to_owned()),
                };
                assert(is_first_refusal(headers@, i as int, error));
                return Err(error);
            },
            None => {},
        }
        assert(header_accepted(headers@[i as int]));
        i = i + 1;
    }
    Ok(())
}

} // verus!
