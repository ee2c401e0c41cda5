//! The client facade: what to ask the endpoint, how to begin an exchange,
//! and the views derived from the records of a fetch.
//!
//! The client performs no I/O. It hands out an [`Exchange`]: the request to
//! send and the first step of the transport. The caller drives the
//! exchange with [`RetryState::step`](crate::transport::RetryState::step)
//! and gives the raw block production that came back to
//! [`process_block_production_response`](crate::analytics::process_block_production_response).

use vstd::prelude::*;
use vstd::string::StringExecFns;
use std::time::Duration;
use crate::aggregate::{members, select, Group};
use crate::config::{
    endpoint_accepted, headers_accepted, is_endpoint_refusal, is_refusal, validate_endpoint,
    validate_headers, with_header, ClientConfig, ClientConfigBuilder, RateLimit,
};
use crate::error::BlockProductionError;
use crate::percent::{nearest_rank_index, percentile_index};
use crate::ranking::{has_lower_rate, lower_rate, ranked, sort_by_skip_rate};
use crate::text::{bytes_of, decimal_text, push_decimal, str_eq};
use crate::timing::duration_nanos;
use crate::transport::{Phase, RetryPolicy, RetryState, TransportAction};
use crate::types::{
    reaches_percent, BlockProductionData, BlockProductionRequest, SlotRange, ValidatorSkipRate,
};

verus! {

/// A JSON-RPC 2.0 request.
#[derive(Debug)]
pub struct RpcEnvelope {
    /// Protocol version, always `2.0`.
    pub jsonrpc: String,
    /// Identifier of the request.
    pub id: u64,
    /// Method to call.
    pub method: String,
    /// Positional parameters; absent for a method without parameters.
    pub params: Option<Vec<BlockProductionRequest>>,
}

/// A request together with the first step of its exchange.
#[derive(Debug)]
pub struct Exchange {
    /// The request to send on every attempt.
    pub request: RpcEnvelope,
    /// The state of the exchange.
    pub state: RetryState,
    /// What to do first.
    pub action: TransportAction,
}

/// Whether `request` asks for block production with `params`: the list of
/// parameters is empty when neither a range nor a commitment is set, and
/// holds the one configuration object otherwise.
pub open spec fn is_block_production_request(
    request: RpcEnvelope,
    params: BlockProductionRequest,
) -> bool {
    &&& request.jsonrpc@ == "2.0"@
    &&& request.id == 1
    &&& request.method@ == "getBlockProduction"@
    &&& request.params matches Some(list)
    &&& if params.range is None && params.commitment is None {
        list@.len() == 0
    } else {
        list@.len() == 1 && list@[0] == params
    }
}

/// Whether `request` is the liveness probe.
pub open spec fn is_health_request(request: RpcEnvelope) -> bool {
    &&& request.jsonrpc@ == "2.0"@
    &&& request.id == 1
    &&& request.method@ == "getHealth"@
    &&& request.params is None
}

/// Whether `exchange` begins an exchange for `config`: an attempt without
/// delay if the configuration allows any attempt.
pub open spec fn begins(exchange: Exchange, config: ClientConfig) -> bool {
    &&& exchange.state.wf()
    &&& exchange.state.policy.max_attempts == config.retry_attempts
    &&& exchange.state.policy.timeout == config.timeout
    &&& exchange.state.policy.backoff == config.retry_backoff
    &&& exchange.state.endpoint@ == config.rpc_endpoint@
    &&& exchange.state.method@ == exchange.request.method@
    &&& !exchange.state.rate_limited
    &&& exchange.state.error_history@.len() == 0
    &&& config.retry_attempts > 0 ==> exchange.state.phase == Phase::Sending
        && exchange.state.attempt == 1 && exchange.action == (TransportAction::Send {
        attempt: 1,
        delay: None,
    })
    &&& config.retry_attempts == 0 ==> exchange.state.phase == Phase::Finished
        && exchange.action matches TransportAction::Done {
        result: Err(BlockProductionError::RetryExhausted { .. }),
    }
}

/// Whether `e` is the error for a slot range that is not a range.
pub open spec fn is_invalid_slot_range(
    e: BlockProductionError,
    first_slot: u64,
    last_slot: u64,
) -> bool {
    &&& e matches BlockProductionError::InvalidSlotRange { message, provided_range, valid_range }
    &&& message@ == "Invalid slot range: first_slot ("@ + decimal_text(first_slot as nat)
        + ") must be less than last_slot ("@ + decimal_text(last_slot as nat) + ")"@
    &&& provided_range == Some((first_slot, last_slot))
    &&& valid_range is None
}

/// The request for block production with the given parameters.
pub fn build_rpc_request(params: &BlockProductionRequest) -> (request: RpcEnvelope)
    ensures
        is_block_production_request(request, *params),
{
    let mut list: Vec<BlockProductionRequest> = Vec::new();
    match (&params.range, &params.commitment) {
        (None, None) => {},
        _ => {
            list.push(params.clone());
        },
    }
    RpcEnvelope {
        jsonrpc: "2.0".to_owned(),
        id: 1,
        method: "getBlockProduction".to_owned(),
        params: Some(list),
    }
}

/// The request of the liveness probe.
pub fn health_request() -> (request: RpcEnvelope)
    ensures
        is_health_request(request),
{
    RpcEnvelope { jsonrpc: "2.0".to_owned(), id: 1, method: "getHealth".to_owned(), params: None }
}

/// The parameters that ask for the slots from `first_slot` to `last_slot`.
/// The first slot has to lie before the last: otherwise the range is
/// refused, before anything is sent.
pub fn range_request(first_slot: u64, last_slot: u64) -> (result: Result<
    BlockProductionRequest,
    BlockProductionError,
>)
    ensures
        result is Ok <==> first_slot < last_slot,
        result matches Ok(params) ==> params.range == Some(SlotRange { first_slot, last_slot })
            && params.commitment is None,
        result matches Err(e) ==> is_invalid_slot_range(e, first_slot, last_slot),
{
    if first_slot >= last_slot {
        let mut message = "Invalid slot range: first_slot (".to_owned();
        push_decimal(&mut message, first_slot as u128);
        message.append(") must be less than last_slot (");
        push_decimal(&mut message, last_slot as u128);
        message.append(")");
        return Err(
            BlockProductionError::InvalidSlotRange {
                message,
                provided_range: Some((first_slot, last_slot)),
                valid_range: None,
            },
        );
    }
    Ok(BlockProductionRequest { range: Some(SlotRange { first_slot, last_slot }), commitment: None })
}

/// Whether every name in `names` differs from `name`.
pub open spec fn not_among(name: Seq<char>, names: Seq<String>) -> bool {
    forall|i: int| 0 <= i < names.len() ==> (#[trigger] names[i])@ != name
}

/// The records whose identity is among `names`, in their order.
pub open spec fn named(records: Seq<ValidatorSkipRate>, names: Seq<String>) -> Seq<
    ValidatorSkipRate,
>
    decreases records.len(),
{
    if records.len() == 0 {
        Seq::empty()
    } else if !not_among(records.last().pubkey@, names) {
        named(records.drop_last(), names).push(records.last())
    } else {
        named(records.drop_last(), names)
    }
}

/// The records from the one at the 95th percentile upwards that are not at
/// one hundred percent, in their order.
pub open spec fn worst(records: Seq<ValidatorSkipRate>, all: Seq<ValidatorSkipRate>) -> Seq<
    ValidatorSkipRate,
>
    decreases records.len(),
{
    if records.len() == 0 {
        Seq::empty()
    } else if is_among_worst(records.last(), all) {
        worst(records.drop_last(), all).push(records.last())
    } else {
        worst(records.drop_last(), all)
    }
}

/// Whether the rate of `v` is at least the rate at the 95th percentile of
/// `all` and below one hundred percent. Without records the percentile is
/// zero.
pub open spec fn is_among_worst(v: ValidatorSkipRate, all: Seq<ValidatorSkipRate>) -> bool {
    &&& !v.spec_is_offline()
    &&& all.len() > 0 ==> !lower_rate(v, all[nearest_rank_index(all.len(), 95) as int])
}

fn is_named(name: &str, names: &Vec<String>) -> (r: bool)
    ensures
        r == !not_among(name@, names@),
{
    let n = names.len();
    let mut i: usize = 0;
    while i < n
        invariant
            n == names@.len(),
            i <= n,
            forall|j: int| 0 <= j < i ==> (#[trigger] names@[j])@ != name@,
        decreases n - i,
    {
        if str_eq(names[i].as_str(), name) {
            return true;
        }
        i = i + 1;
    }
    false
}

/// A client for one endpoint.
#[derive(Debug)]
pub struct BlockProductionClient {
    config: ClientConfig,
}

impl BlockProductionClient {
    /// The configuration of the client.
    pub closed spec fn spec_config(&self) -> ClientConfig {
        self.config
    }

    /// The configuration of the client.
    pub fn config(&self) -> (c: &ClientConfig)
        ensures
            *c == self.spec_config(),
    {
        &self.config
    }

    /// A client for `rpc_endpoint` with the default settings. The endpoint
    /// must begin with `http://` or `https://`.
    pub fn new(rpc_endpoint: &str) -> (result: Result<Self, BlockProductionError>)
        ensures
            result is Ok <==> endpoint_accepted(bytes_of(rpc_endpoint@)),
            result matches Ok(client) ==> client.spec_config().rpc_endpoint@ == rpc_endpoint@
                && duration_nanos(client.spec_config().timeout) == 30_000_000_000
                && client.spec_config().retry_attempts == 3
                && client.spec_config().rate_limiter is None
                && client.spec_config().max_concurrent_requests == 10
                && client.spec_config().headers@.len() == 0
                && client.spec_config().retry_backoff is None,
            result matches Err(e) ==> is_endpoint_refusal(e, rpc_endpoint@),
    {
        match validate_endpoint(rpc_endpoint) {
            Err(e) => Err(e),
            Ok(()) => {
                let config = ClientConfig::builder().rpc_endpoint(rpc_endpoint.to_owned()).build();
                Ok(BlockProductionClient { config })
            },
        }
    }

    /// A client with the given configuration. The endpoint must begin with
    /// `http://` or `https://`, and the HTTP client must accept every
    /// custom header.
    pub fn from_config(config: ClientConfig) -> (result: Result<Self, BlockProductionError>)
        ensures
            result is Ok <==> endpoint_accepted(bytes_of(config.rpc_endpoint@))
                && headers_accepted(config.headers@),
            result matches Ok(client) ==> client.spec_config() == config,
            result matches Err(e) ==> is_refusal(e, config.rpc_endpoint@, config.headers@),
    {
        match validate_endpoint(config.rpc_endpoint.as_str()) {
            Err(e) => {
                return Err(e);
            },
            Ok(()) => {},
        }
        match validate_headers(&config.headers) {
            Err(e) => Err(e),
            Ok(()) => Ok(BlockProductionClient { config }),
        }
    }

    /// A builder of clients.
    pub fn builder() -> (b: ClientBuilder)
        ensures
            b.config.is_default(),
    {
        ClientBuilder::new()
    }

    fn begin(&self, request: RpcEnvelope) -> (exchange: Exchange)
        ensures
            exchange.request == request,
            begins(exchange, self.spec_config()),
    {
        let policy = RetryPolicy {
            max_attempts: self.config.retry_attempts,
            timeout: self.config.timeout,
            backoff: self.config.retry_backoff,
        };
        let (state, action) = RetryState::start(
            policy,
            self.config.rpc_endpoint.clone(),
            request.method.clone(),
        );
        Exchange { request, state, action }
    }

    /// Begins the liveness probe. The endpoint is healthy if the body that
    /// the exchange ends with has a `result`; the errors of the probe are
    /// those of the transport, as they are.
    pub fn test_connection(&self) -> (exchange: Exchange)
        ensures
            is_health_request(exchange.request),
            begins(exchange, self.spec_config()),
    {
        self.begin(health_request())
    }

    /// Begins a fetch of the block production of all validators.
    pub fn fetch_block_production(&self) -> (exchange: Exchange)
        ensures
            is_block_production_request(
                exchange.request,
                BlockProductionRequest { range: None, commitment: None },
            ),
            begins(exchange, self.spec_config()),
    {
        self.fetch_block_production_with_params(BlockProductionRequest::default())
    }

    /// Begins a fetch of block production with the given parameters.
    pub fn fetch_block_production_with_params(&self, params: BlockProductionRequest) -> (exchange:
        Exchange)
        ensures
            is_block_production_request(exchange.request, params),
            begins(exchange, self.spec_config()),
    {
        self.begin(build_rpc_request(&params))
    }

    /// Begins a fetch of the block production between two slots. A range
    /// whose first slot does not lie before its last is refused, and
    /// nothing is begun.
    pub fn fetch_block_production_range(&self, first_slot: u64, last_slot: u64) -> (result: Result<
        Exchange,
        BlockProductionError,
    >)
        ensures
            result is Ok <==> first_slot < last_slot,
            result matches Err(e) ==> is_invalid_slot_range(e, first_slot, last_slot),
            result matches Ok(exchange) ==> {
                &&& begins(exchange, self.spec_config())
                &&& is_block_production_request(
                    exchange.request,
                    BlockProductionRequest {
                        range: Some(SlotRange { first_slot, last_slot }),
                        commitment: None,
                    },
                )
            },
    {
        match range_request(first_slot, last_slot) {
            Err(e) => Err(e),
            Ok(params) => Ok(self.fetch_block_production_with_params(params)),
        }
    }

    /// The records of the validators whose identity is among
    /// `validator_pubkeys`. The endpoint cannot filter by identity, so the
    /// whole fetch is filtered here.
    pub fn fetch_validator_skip_rates(
        data: &BlockProductionData,
        validator_pubkeys: &Vec<String>,
    ) -> (chosen: Vec<ValidatorSkipRate>)
        ensures
            chosen@ == named(data.validators@, validator_pubkeys@),
    {
        let records = &data.validators;
        let n = records.len();
        let mut chosen: Vec<ValidatorSkipRate> = Vec::new();
        let mut i: usize = 0;
        assert(records@.take(0) =~= Seq::<ValidatorSkipRate>::empty());
        while i < n
            invariant
                n == records@.len(),
                i <= n,
                chosen@ == named(records@.take(i as int), validator_pubkeys@),
            decreases n - i,
        {
            proof {
                assert(records@.take(i + 1).drop_last() =~= records@.take(i as int));
                assert(records@.take(i + 1).last() == records@[i as int]);
            }
            if is_named(records[i].pubkey.as_str(), validator_pubkeys) {
                chosen.push(records[i].duplicate());
            }
            i = i + 1;
        }
        assert(records@.take(n as int) =~= records@);
        chosen
    }

    /// The validators with a skip rate above five percent, in the order of
    /// the fetch.
    pub fn get_concerning_validators(data: &BlockProductionData) -> (chosen: Vec<ValidatorSkipRate>)
        ensures
            chosen@ == members(data.validators@, Group::Concerning),
    {
        select(&data.validators, Group::Concerning)
    }

    /// The validators that filled every slot, in the order of the fetch.
    pub fn get_perfect_validators(data: &BlockProductionData) -> (chosen: Vec<ValidatorSkipRate>)
        ensures
            chosen@ == members(data.validators@, Group::Perfect),
    {
        select(&data.validators, Group::Perfect)
    }

    /// The validators that missed every slot, in the order of the fetch.
    pub fn get_offline_validators(data: &BlockProductionData) -> (chosen: Vec<ValidatorSkipRate>)
        ensures
            chosen@ == members(data.validators@, Group::Offline),
    {
        select(&data.validators, Group::Offline)
    }

    /// The validators with at least fifty slots, best first.
    pub fn get_significant_validators(data: &BlockProductionData) -> (chosen: Vec<
        ValidatorSkipRate,
    >)
        ensures
            chosen@ == ranked(members(data.validators@, Group::Significant), false),
    {
        sort_by_skip_rate(&select(&data.validators, Group::Significant), false)
    }

    /// The validators with a skip rate above zero and of at most five
    /// percent, best first.
    pub fn get_moderate_performers(data: &BlockProductionData) -> (chosen: Vec<ValidatorSkipRate>)
        ensures
            chosen@ == ranked(members(data.validators@, Group::Moderate), false),
    {
        sort_by_skip_rate(&select(&data.validators, Group::Moderate), false)
    }

    /// The validators with more than a thousand slots, best first.
    pub fn get_high_activity_validators(data: &BlockProductionData) -> (chosen: Vec<
        ValidatorSkipRate,
    >)
        ensures
            chosen@ == ranked(members(data.validators@, Group::HighStake), false),
    {
        sort_by_skip_rate(&select(&data.validators, Group::HighStake), false)
    }

    /// The validators at or above the 95th percentile of the fetch that
    /// did not miss every slot, worst first.
    pub fn get_worst_percentile_validators(data: &BlockProductionData) -> (chosen: Vec<
        ValidatorSkipRate,
    >)
        ensures
            chosen@ == ranked(worst(data.validators@, data.validators@), true),
    {
        let records = &data.validators;
        let n = records.len();
        let at = percentile_index(n, 95);
        let mut kept: Vec<ValidatorSkipRate> = Vec::new();
        let mut i: usize = 0;
        assert(records@.take(0) =~= Seq::<ValidatorSkipRate>::empty());
        while i < n
            invariant
                n == records@.len(),
                i <= n,
                n > 0 ==> at < n,
                at == nearest_rank_index(n as nat, 95),
                kept@ == worst(records@.take(i as int), records@),
            decreases n - i,
        {
            proof {
                assert(records@.take(i + 1).drop_last() =~= records@.take(i as int));
                assert(records@.take(i + 1).last() == records@[i as int]);
            }
            let v = &records[i];
            if !reaches_percent(v.missed_slots, v.leader_slots, 100) && !has_lower_rate(
                v,
                &records[at],
            ) {
                kept.push(v.duplicate());
            }
            i = i + 1;
        }
        assert(records@.take(n as int) =~= records@);
        sort_by_skip_rate(&kept, true)
    }
}

/// Builder of a [`BlockProductionClient`].
#[derive(Debug)]
pub struct ClientBuilder {
    pub config: ClientConfig,
}

impl ClientBuilder {
    /// A builder that starts from the default configuration.
    pub fn new() -> (b: Self)
        ensures
            b.config.is_default(),
    {
        ClientBuilder { config: ClientConfig::default() }
    }

    /// Sets the endpoint.
    pub fn rpc_endpoint(self, endpoint: &str) -> (b: Self)
        ensures
            b.config.rpc_endpoint@ == endpoint@,
            b.config.timeout == self.config.timeout,
            b.config.retry_attempts == self.config.retry_attempts,
            b.config.rate_limiter == self.config.rate_limiter,
            b.config.max_concurrent_requests == self.config.max_concurrent_requests,
            b.config.headers@ == self.config.headers@,
            b.config.retry_backoff == self.config.retry_backoff,
    {
        let mut b = self;
        b.config.rpc_endpoint = endpoint.to_owned();
        b
    }

    /// Sets the time allowed for each attempt.
    pub fn timeout(self, timeout: Duration) -> (b: Self)
        ensures
            b.config == (ClientConfig { timeout, ..self.config }),
    {
        let mut b = self;
        b.config.timeout = timeout;
        b
    }

    /// Sets the number of attempts.
    pub fn retry_attempts(self, attempts: u32) -> (b: Self)
        ensures
            b.config == (ClientConfig { retry_attempts: attempts, ..self.config }),
    {
        let mut b = self;
        b.config.retry_attempts = attempts;
        b
    }

    /// Limits the rate to `requests_per_second`; zero changes nothing.
    pub fn rate_limit(self, requests_per_second: u32) -> (b: Self)
        ensures
            b.config == (ClientConfig {
                rate_limiter: if requests_per_second == 0 {
                    self.config.rate_limiter
                } else {
                    Some(RateLimit { requests_per_second })
                },
                ..self.config
            }),
    {
        let mut b = self;
        if requests_per_second != 0 {
            b.config.rate_limiter = Some(RateLimit { requests_per_second });
        }
        b
    }

    /// Sets the number of requests that may be under way at once.
    pub fn max_concurrent_requests(self, max: usize) -> (b: Self)
        ensures
            b.config == (ClientConfig { max_concurrent_requests: max, ..self.config }),
    {
        let mut b = self;
        b.config.max_concurrent_requests = max;
        b
    }

    /// Sets the wait between attempts after a timeout, a failed connection
    /// or a server error.
    pub fn retry_backoff(self, backoff: Duration) -> (b: Self)
        ensures
            b.config == (ClientConfig { retry_backoff: Some(backoff), ..self.config }),
    {
        let mut b = self;
        b.config.retry_backoff = Some(backoff);
        b
    }

    /// Sets a custom header; a header of the same name is replaced.
    pub fn add_header(self, key: &str, value: &str) -> (b: Self)
        ensures
            b.config.rpc_endpoint == self.config.rpc_endpoint,
            b.config.timeout == self.config.timeout,
            b.config.retry_attempts == self.config.retry_attempts,
            b.config.rate_limiter == self.config.rate_limiter,
            b.config.max_concurrent_requests == self.config.max_concurrent_requests,
            b.config.retry_backoff == self.config.retry_backoff,
            b.config.headers@ == with_header(self.config.headers@, key@, value@),
    {
        let built = ClientConfigBuilder { config: self.config }.add_header(
            key.to_owned(),
            value.to_owned(),
        );
        ClientBuilder { config: built.config }
    }

    /// Replaces the configuration by the settings for public endpoints.
    pub fn public_rpc_config(self) -> (b: Self)
        ensures
            b.config.is_preset(60, 5, 2, 5),
    {
        ClientBuilder { config: ClientConfig::public_rpc_config().build() }
    }

    /// Replaces the configuration by the settings for private endpoints.
    pub fn private_rpc_config(self) -> (b: Self)
        ensures
            b.config.is_preset(30, 3, 10, 20),
    {
        ClientBuilder { config: ClientConfig::private_rpc_config().build() }
    }

    /// Replaces the configuration by the settings for frequent requests.
    pub fn high_frequency_config(self) -> (b: Self)
        ensures
            b.config.is_preset(15, 2, 50, 50),
    {
        ClientBuilder { config: ClientConfig::high_frequency_config().build() }
    }

    /// Replaces the configuration by the settings for batch processing.
    pub fn batch_processing_config(self) -> (b: Self)
        ensures
            b.config.is_preset(120, 5, 5, 100),
    {
        ClientBuilder { config: ClientConfig::batch_processing_config().build() }
    }

    /// Replaces the configuration by the settings that fit the endpoint.
    pub fn auto_config(self, rpc_endpoint: &str) -> (b: Self)
        ensures
            b.config.is_auto_config(rpc_endpoint@),
    {
        ClientBuilder { config: ClientConfig::auto_config(rpc_endpoint).build() }
    }

    /// The client built, if its configuration is valid.
    pub fn build(self) -> (result: Result<BlockProductionClient, BlockProductionError>)
        ensures
            result is Ok <==> endpoint_accepted(bytes_of(self.config.rpc_endpoint@))
                && headers_accepted(self.config.headers@),
            result matches Ok(client) ==> client.spec_config() == self.config,
            result matches Err(e) ==> is_refusal(
                e,
                self.config.rpc_endpoint@,
                self.config.headers@,
            ),
    {
        BlockProductionClient::from_config(self.config)
    }
}

impl Default for ClientBuilder {
    fn default() -> (b: Self)
        ensures
            b.config.is_default(),
    {
        Self::new()
    }
}

} // verus!
