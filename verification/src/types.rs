//! The value objects of one fetch: raw per-validator counts, validator
//! records, aggregate statistics, distribution, health and snapshots.

use vstd::prelude::*;
use crate::percent::{rate_above, rate_at_least, ratio_micros, Percent};

verus! {

/// Envelope of a successful `getBlockProduction` reply.
#[derive(Debug)]
pub struct RpcResponse {
    pub result: BlockProductionResult,
}

/// The `result` member of a reply.
#[derive(Debug)]
pub struct BlockProductionResult {
    pub value: BlockProductionValue,
}

/// Raw block production: one entry per validator identity, in the order
/// received, each with its assigned leader slots and produced blocks.
#[derive(Debug)]
pub struct BlockProductionValue {
    pub by_identity: Vec<(String, (u64, u64))>,
    pub range: SlotRange,
}

/// A range of slots, from `first_slot` to `last_slot`.
#[derive(Debug, Clone, Copy, PartialEq, Eq, Structural)]
pub struct SlotRange {
    pub first_slot: u64,
    pub last_slot: u64,
}

impl SlotRange {
    /// The number of slots between the two ends, zero when the range is
    /// reversed.
    pub open spec fn spec_slot_count(self) -> nat {
        if self.last_slot >= self.first_slot {
            (self.last_slot - self.first_slot) as nat
        } else {
            0
        }
    }

    /// The number of slots in the range.
    pub fn slot_count(&self) -> (count: u64)
        ensures
            count == self.spec_slot_count(),
    {
        if self.last_slot >= self.first_slot {
            self.last_slot - self.first_slot
        } else {
            0
        }
    }
}

/// Slots a validator was assigned and did not fill.
pub open spec fn missed_of(leader_slots: int, blocks_produced: int) -> int {
    if leader_slots >= blocks_produced {
        leader_slots - blocks_produced
    } else {
        0
    }
}

/// The weight of a validator in weighted statistics, in millionths: none
/// without slots, a tenth below fifty slots, and from there on a tenth of
/// the natural logarithm of its slots, which is given in millionths.
pub open spec fn weight_of(leader_slots: int, log_micros: int) -> int {
    if leader_slots == 0 {
        0
    } else if leader_slots < 50 {
        100_000
    } else {
        log_micros / 10
    }
}

/// One validator's record for one fetch.
#[derive(Debug)]
pub struct ValidatorSkipRate {
    /// Validator identity.
    pub pubkey: String,
    /// Leader slots assigned.
    pub leader_slots: u64,
    /// Blocks produced.
    pub blocks_produced: u64,
    /// Assigned slots that stayed empty.
    pub missed_slots: u64,
    /// Missed slots out of assigned slots, rounded down.
    pub skip_rate_percent: Percent,
}

impl ValidatorSkipRate {
    /// The derived fields agree with the two counts.
    pub open spec fn wf(self) -> bool {
        &&& self.missed_slots == missed_of(self.leader_slots as int, self.blocks_produced as int)
        &&& self.skip_rate_percent.micros == ratio_micros(
            self.missed_slots as int,
            self.leader_slots as int,
        )
    }

    /// Skip rate exactly zero, with at least one slot assigned.
    pub open spec fn spec_is_perfect(self) -> bool {
        !rate_above(self.missed_slots as int, self.leader_slots as int, 0) && self.leader_slots > 0
    }

    /// Skip rate strictly above five percent.
    pub open spec fn spec_is_concerning(self) -> bool {
        rate_above(self.missed_slots as int, self.leader_slots as int, 5)
    }

    /// At least fifty assigned slots.
    pub open spec fn spec_is_significant(self) -> bool {
        self.leader_slots >= 50
    }

    /// More than a thousand assigned slots.
    pub open spec fn spec_is_high_stake(self) -> bool {
        self.leader_slots > 1000
    }

    /// Fewer than ten assigned slots.
    pub open spec fn spec_is_low_activity(self) -> bool {
        self.leader_slots < 10
    }

    /// Skip rate of one hundred percent or more.
    pub open spec fn spec_is_offline(self) -> bool {
        rate_at_least(self.missed_slots as int, self.leader_slots as int, 100)
    }

    /// Builds the record of a validator from its two counts.
    pub fn new(pubkey: String, leader_slots: u64, blocks_produced: u64) -> (v: Self)
        ensures
            v.pubkey == pubkey,
            v.leader_slots == leader_slots,
            v.blocks_produced == blocks_produced,
            v.missed_slots == missed_of(leader_slots as int, blocks_produced as int),
            v.skip_rate_percent.micros == ratio_micros(v.missed_slots as int, leader_slots as int),
            v.skip_rate_percent.micros <= 100_000_000,
            leader_slots == 0 ==> v.skip_rate_percent.micros == 0,
            v.wf(),
    {
        let missed_slots = if leader_slots >= blocks_produced {
            leader_slots - blocks_produced
        } else {
            0
        };
        proof {
            crate::percent::lemma_ratio_micros_bounds(missed_slots as int, leader_slots as int);
        }
        Self {
            pubkey,
            leader_slots,
            blocks_produced,
            missed_slots,
            skip_rate_percent: Percent::of(missed_slots, leader_slots),
        }
    }

    /// A copy of this record.
    pub fn duplicate(&self) -> (v: Self)
        ensures
            v == *self,
    {
        Self {
            pubkey: self.pubkey.clone(),
            leader_slots: self.leader_slots,
            blocks_produced: self.blocks_produced,
            missed_slots: self.missed_slots,
            skip_rate_percent: self.skip_rate_percent,
        }
    }

    /// Whether the validator filled every slot it was assigned, and was
    /// assigned at least one.
    pub fn is_perfect(&self) -> (r: bool)
        ensures
            r == self.spec_is_perfect(),
    {
        self.leader_slots > 0 && self.missed_slots == 0
    }

    /// Whether the skip rate is strictly above five percent.
    pub fn is_concerning(&self) -> (r: bool)
        ensures
            r == self.spec_is_concerning(),
    {
        exceeds_percent(self.missed_slots, self.leader_slots, 5)
    }

    /// Whether the validator has at least fifty assigned slots.
    pub fn is_significant(&self) -> (r: bool)
        ensures
            r == self.spec_is_significant(),
    {
        self.leader_slots >= 50
    }

    /// Whether the validator has more than a thousand assigned slots.
    pub fn is_high_stake(&self) -> (r: bool)
        ensures
            r == self.spec_is_high_stake(),
    {
        self.leader_slots > 1000
    }

    /// Whether the validator has fewer than ten assigned slots.
    pub fn is_low_activity(&self) -> (r: bool)
        ensures
            r == self.spec_is_low_activity(),
    {
        self.leader_slots < 10
    }

    /// Whether the validator missed every slot it was assigned.
    pub fn is_offline(&self) -> (r: bool)
        ensures
            r == self.spec_is_offline(),
    {
        reaches_percent(self.missed_slots, self.leader_slots, 100)
    }

    /// The performance category of this record, decided on its counts.
    pub fn performance_category(&self) -> (c: ValidatorPerformanceCategory)
        ensures
            c == category_of_counts(self.missed_slots as int, self.leader_slots as int),
    {
        let m = self.missed_slots;
        let s = self.leader_slots;
        if s < 10 {
            ValidatorPerformanceCategory::Insufficient
        } else if reaches_percent(m, s, 100) {
            ValidatorPerformanceCategory::Offline
        } else if reaches_percent(m, s, 25) {
            ValidatorPerformanceCategory::Critical
        } else if reaches_percent(m, s, 10) {
            ValidatorPerformanceCategory::Poor
        } else if reaches_percent(m, s, 5) {
            ValidatorPerformanceCategory::Concerning
        } else if reaches_percent(m, s, 3) {
            ValidatorPerformanceCategory::Average
        } else if reaches_percent(m, s, 1) {
            ValidatorPerformanceCategory::Good
        } else if exceeds_percent(m, s, 0) {
            ValidatorPerformanceCategory::Excellent
        } else {
            ValidatorPerformanceCategory::Perfect
        }
    }

    /// The weight of this validator in weighted statistics, in millionths,
    /// given the natural logarithm of its slots in millionths.
    pub fn significance_weight(&self, log_micros: u32) -> (weight: u32)
        ensures
            weight == weight_of(self.leader_slots as int, log_micros as int),
    {
        if self.leader_slots == 0 {
            0
        } else if self.leader_slots < 50 {
            100_000
        } else {
            log_micros / 10
        }
    }
}

/// Whether `missed / slots` is at least `pct` percent.
pub fn reaches_percent(missed: u64, slots: u64, pct: u8) -> (r: bool)
    ensures
        r == rate_at_least(missed as int, slots as int, pct as int),
{
    if slots == 0 {
        pct == 0
    } else {
        assert(100 * missed <= 100 * 0xffff_ffff_ffff_ffff);
        assert(pct * slots <= 255 * 0xffff_ffff_ffff_ffff) by (nonlinear_arith)
            requires
                pct <= 255,
                slots <= 0xffff_ffff_ffff_ffff,
        ;
        100u128 * (missed as u128) >= (pct as u128) * (slots as u128)
    }
}

/// Whether `missed / slots` is strictly above `pct` percent.
pub fn exceeds_percent(missed: u64, slots: u64, pct: u8) -> (r: bool)
    ensures
        r == rate_above(missed as int, slots as int, pct as int),
{
    if slots == 0 {
        false
    } else {
        assert(pct * slots <= 255 * 0xffff_ffff_ffff_ffff) by (nonlinear_arith)
            requires
                pct <= 255,
                slots <= 0xffff_ffff_ffff_ffff,
        ;
        100u128 * (missed as u128) > (pct as u128) * (slots as u128)
    }
}

/// Every well-formed record has its missed slots bounded by its assigned
/// slots, a rate between zero and one hundred percent, and rate zero when no
/// slot was assigned.
pub proof fn lemma_record_bounds(v: ValidatorSkipRate)
    requires
        v.wf(),
    ensures
        v.missed_slots == missed_of(v.leader_slots as int, v.blocks_produced as int),
        v.missed_slots <= v.leader_slots,
        0 <= v.skip_rate_percent.micros <= 100_000_000,
        v.leader_slots == 0 ==> v.skip_rate_percent.micros == 0,
        v.leader_slots == 0 ==> !v.spec_is_perfect() && !v.spec_is_concerning(),
{
    crate::percent::lemma_ratio_micros_bounds(v.missed_slots as int, v.leader_slots as int);
}

/// Aggregate statistics over all validators of one fetch.
#[derive(Debug, Clone, Copy)]
pub struct SkipRateStatistics {
    /// Number of validators.
    pub total_validators: usize,
    /// Sum of assigned leader slots.
    pub total_leader_slots: u64,
    /// Sum of produced blocks.
    pub total_blocks_produced: u64,
    /// Sum of missed slots.
    pub total_missed_slots: u64,
    /// Missed slots out of assigned slots, over the whole network.
    pub overall_skip_rate_percent: Percent,
    /// Mean of the validators' skip rates.
    pub average_skip_rate_percent: Percent,
    /// Median of the validators' skip rates.
    pub median_skip_rate_percent: Percent,
    /// Mean of the skip rates of the significant validators, each weighted
    /// by a tenth of the natural logarithm of its slots.
    pub weighted_skip_rate_percent: Percent,
    /// Missed out of assigned slots among significant validators.
    pub significant_validators_skip_rate_percent: Percent,
    /// Missed out of assigned slots among high-stake validators.
    pub high_stake_skip_rate_percent: Percent,
    /// Validators with rate zero and at least one slot.
    pub perfect_validators: usize,
    /// Validators with rate above five percent.
    pub concerning_validators: usize,
    /// Validators with rate one hundred percent.
    pub offline_validators: usize,
    /// Validators with fewer than ten slots.
    pub low_activity_validators: usize,
    /// Validators with more than a thousand slots.
    pub high_activity_validators: usize,
    /// Validators with at least fifty slots.
    pub significant_validators: usize,
    /// Skip rate at the 90th percentile.
    pub skip_rate_90th_percentile: Percent,
    /// Skip rate at the 95th percentile.
    pub skip_rate_95th_percentile: Percent,
    /// Skip rate at the 90th percentile among significant validators.
    pub significant_skip_rate_90th_percentile: Percent,
    /// Skip rate at the 95th percentile among significant validators.
    pub significant_skip_rate_95th_percentile: Percent,
    /// Produced blocks out of assigned slots, over the whole network.
    pub network_efficiency_percent: Percent,
    /// Produced blocks out of assigned slots among significant validators.
    pub weighted_network_efficiency_percent: Percent,
}

/// Histogram and percentile ladder of the skip rates.
#[derive(Debug)]
pub struct SkipRateDistribution {
    /// The nine fixed buckets, best first.
    pub buckets: Vec<DistributionBucket>,
    /// The percentile ladder 10, 20, .., 90, 95, 99.
    pub percentiles: Vec<PercentileData>,
    /// The same data as parallel arrays.
    pub plot_data: DistributionPlotData,
}

/// One bucket of the distribution.
#[derive(Debug)]
pub struct DistributionBucket {
    /// Display label of the bucket.
    pub range_label: String,
    /// Lower bound of the bucket in percent.
    pub min_percent: Percent,
    /// Upper bound of the bucket in percent.
    pub max_percent: Percent,
    /// Validators in the bucket.
    pub validator_count: usize,
    /// Share of all validators that are in the bucket.
    pub percentage_of_total: Percent,
    /// Sum of the assigned slots of the validators in the bucket.
    pub total_slots: u64,
}

/// One step of the percentile ladder.
#[derive(Debug, Clone, Copy, PartialEq, Eq, Structural)]
pub struct PercentileData {
    /// The percentile, such as 50 or 95.
    pub percentile: u8,
    /// Skip rate at this percentile.
    pub skip_rate_percent: Percent,
}

/// The distribution as arrays that can be plotted as they are.
#[derive(Debug)]
pub struct DistributionPlotData {
    /// Bucket labels.
    pub histogram_labels: Vec<String>,
    /// Bucket counts, parallel to the labels.
    pub histogram_values: Vec<usize>,
    /// Percentiles of the ladder.
    pub percentile_x: Vec<u8>,
    /// Skip rates, parallel to the percentiles.
    pub percentile_y: Vec<Percent>,
}

/// One validator's performance in one fetch, ready for a time series.
#[derive(Debug)]
pub struct ValidatorPerformanceSnapshot {
    /// Time of the fetch in milliseconds since the Unix epoch.
    pub timestamp: i64,
    /// Slot range of the fetch.
    pub slot_range: SlotRange,
    /// Validator identity.
    pub validator_pubkey: String,
    /// Skip rate in this range.
    pub skip_rate_percent: Percent,
    /// Assigned leader slots in this range.
    pub leader_slots: u64,
    /// Produced blocks in this range.
    pub blocks_produced: u64,
    /// Category of the validator.
    pub performance_category: ValidatorPerformanceCategory,
}

/// Performance categories of a validator.
#[derive(Debug, Clone, Copy, PartialEq, Eq, Structural, Hash)]
pub enum ValidatorPerformanceCategory {
    /// No missed slot.
    Perfect,
    /// Above zero and below one percent.
    Excellent,
    /// One to three percent.
    Good,
    /// Three to five percent.
    Average,
    /// Five to ten percent.
    Concerning,
    /// Ten to twenty-five percent.
    Poor,
    /// Twenty-five percent and more.
    Critical,
    /// Every slot missed.
    Offline,
    /// Fewer than ten slots: not enough data.
    Insufficient,
}

/// The category of a validator with the given counts. Too few slots take
/// precedence over every rate; all thresholds include their lower bound
/// except the one at zero.
pub open spec fn category_of_counts(missed: int, slots: int) -> ValidatorPerformanceCategory {
    if slots < 10 {
        ValidatorPerformanceCategory::Insufficient
    } else if rate_at_least(missed, slots, 100) {
        ValidatorPerformanceCategory::Offline
    } else if rate_at_least(missed, slots, 25) {
        ValidatorPerformanceCategory::Critical
    } else if rate_at_least(missed, slots, 10) {
        ValidatorPerformanceCategory::Poor
    } else if rate_at_least(missed, slots, 5) {
        ValidatorPerformanceCategory::Concerning
    } else if rate_at_least(missed, slots, 3) {
        ValidatorPerformanceCategory::Average
    } else if rate_at_least(missed, slots, 1) {
        ValidatorPerformanceCategory::Good
    } else if rate_above(missed, slots, 0) {
        ValidatorPerformanceCategory::Excellent
    } else {
        ValidatorPerformanceCategory::Perfect
    }
}

/// The category of a reported skip rate and a number of assigned slots.
pub open spec fn category_of_rate(micros: int, slots: int) -> ValidatorPerformanceCategory {
    if slots < 10 {
        ValidatorPerformanceCategory::Insufficient
    } else if micros >= 100_000_000 {
        ValidatorPerformanceCategory::Offline
    } else if micros >= 25_000_000 {
        ValidatorPerformanceCategory::Critical
    } else if micros >= 10_000_000 {
        ValidatorPerformanceCategory::Poor
    } else if micros >= 5_000_000 {
        ValidatorPerformanceCategory::Concerning
    } else if micros >= 3_000_000 {
        ValidatorPerformanceCategory::Average
    } else if micros >= 1_000_000 {
        ValidatorPerformanceCategory::Good
    } else if micros > 0 {
        ValidatorPerformanceCategory::Excellent
    } else {
        ValidatorPerformanceCategory::Perfect
    }
}

/// Classifying the reported rate of a record gives the category of its
/// counts, unless the record missed fewer than one slot in a hundred
/// million: such a rate is reported as zero.
pub proof fn lemma_category_of_reported_rate(missed: int, slots: int)
    requires
        0 <= missed,
        0 <= slots,
        missed == 0 || missed * 100_000_000 >= slots,
    ensures
        category_of_rate(ratio_micros(missed, slots), slots) == category_of_counts(missed, slots),
{
    crate::percent::lemma_ratio_micros_at_least(missed, slots, 100);
    crate::percent::lemma_ratio_micros_at_least(missed, slots, 25);
    crate::percent::lemma_ratio_micros_at_least(missed, slots, 10);
    crate::percent::lemma_ratio_micros_at_least(missed, slots, 5);
    crate::percent::lemma_ratio_micros_at_least(missed, slots, 3);
    crate::percent::lemma_ratio_micros_at_least(missed, slots, 1);
    if slots > 0 {
        let q = missed * 100_000_000 / slots;
        assert(q > 0 <==> missed * 100_000_000 >= slots) by (nonlinear_arith)
            requires
                q == missed * 100_000_000 / slots,
                slots > 0,
                missed >= 0,
        ;
    }
}

impl ValidatorPerformanceCategory {
    /// The category of a reported skip rate; fewer than ten slots give
    /// `Insufficient` whatever the rate.
    pub fn from_skip_rate(skip_rate: Percent, leader_slots: u64) -> (c: Self)
        ensures
            c == category_of_rate(skip_rate.micros as int, leader_slots as int),
    {
        let micros = skip_rate.micros;
        if leader_slots < 10 {
            Self::Insufficient
        } else if micros >= 100_000_000 {
            Self::Offline
        } else if micros >= 25_000_000 {
            Self::Critical
        } else if micros >= 10_000_000 {
            Self::Poor
        } else if micros >= 5_000_000 {
            Self::Concerning
        } else if micros >= 3_000_000 {
            Self::Average
        } else if micros >= 1_000_000 {
            Self::Good
        } else if micros > 0 {
            Self::Excellent
        } else {
            Self::Perfect
        }
    }

    /// Colour of the category as a hex code.
    pub open spec fn spec_color_hex(self) -> Seq<char> {
        match self {
            Self::Perfect => "#22c55e"@,
            Self::Excellent => "#84cc16"@,
            Self::Good => "#eab308"@,
            Self::Average => "#f97316"@,
            Self::Concerning => "#ef4444"@,
            Self::Poor => "#dc2626"@,
            Self::Critical => "#991b1b"@,
            Self::Offline => "#374151"@,
            Self::Insufficient => "#9ca3af"@,
        }
    }

    /// Colour of the category as a hex code.
    pub fn color_hex(&self) -> (s: &'static str)
        ensures
            s@ == self.spec_color_hex(),
    {
        match self {
            Self::Perfect => "#22c55e",
            Self::Excellent => "#84cc16",
            Self::Good => "#eab308",
            Self::Average => "#f97316",
            Self::Concerning => "#ef4444",
            Self::Poor => "#dc2626",
            Self::Critical => "#991b1b",
            Self::Offline => "#374151",
            Self::Insufficient => "#9ca3af",
        }
    }

    /// Display label of the category.
    pub open spec fn spec_display_label(self) -> Seq<char> {
        match self {
            Self::Perfect => "Perfect (0%)"@,
            Self::Excellent => "Excellent (0-1%)"@,
            Self::Good => "Good (1-3%)"@,
            Self::Average => "Average (3-5%)"@,
            Self::Concerning => "Concerning (5-10%)"@,
            Self::Poor => "Poor (10-25%)"@,
            Self::Critical => "Critical (25%+)"@,
            Self::Offline => "Offline (100%)"@,
            Self::Insufficient => "Insufficient Data"@,
        }
    }

    /// Display label of the category.
    pub fn display_label(&self) -> (s: &'static str)
        ensures
            s@ == self.spec_display_label(),
    {
        match self {
            Self::Perfect => "Perfect (0%)",
            Self::Excellent => "Excellent (0-1%)",
            Self::Good => "Good (1-3%)",
            Self::Average => "Average (3-5%)",
            Self::Concerning => "Concerning (5-10%)",
            Self::Poor => "Poor (10-25%)",
            Self::Critical => "Critical (25%+)",
            Self::Offline => "Offline (100%)",
            Self::Insufficient => "Insufficient Data",
        }
    }
}

/// Health of the network in one fetch.
#[derive(Debug)]
pub struct NetworkHealthSummary {
    /// Health score from zero to one hundred.
    pub health_score: Percent,
    /// Status read off the score.
    pub status: NetworkStatus,
    /// Metrics prepared for dashboard cards.
    pub key_metrics: DashboardMetrics,
    /// Alerts raised by this fetch.
    pub alerts: Vec<NetworkAlert>,
}

/// Status of the network.
#[derive(Debug, Clone, Copy, PartialEq, Eq, Structural)]
pub enum NetworkStatus {
    Healthy,
    Warning,
    Critical,
    Degraded,
}

impl NetworkStatus {
    /// Colour of the status as a hex code.
    pub open spec fn spec_color_hex(self) -> Seq<char> {
        match self {
            Self::Healthy => "#22c55e"@,
            Self::Warning => "#eab308"@,
            Self::Critical => "#ef4444"@,
            Self::Degraded => "#f97316"@,
        }
    }

    /// Colour of the status as a hex code.
    pub fn color_hex(&self) -> (s: &'static str)
        ensures
            s@ == self.spec_color_hex(),
    {
        match self {
            Self::Healthy => "#22c55e",
            Self::Warning => "#eab308",
            Self::Critical => "#ef4444",
            Self::Degraded => "#f97316",
        }
    }
}

/// The four dashboard cards.
#[derive(Debug)]
pub struct DashboardMetrics {
    /// Network skip rate.
    pub network_skip_rate: MetricCard,
    /// Number of significant validators.
    pub active_validators: MetricCard,
    /// Network efficiency.
    pub network_efficiency: MetricCard,
    /// Number of concerning validators.
    pub concerning_validators: MetricCard,
}

/// One dashboard card.
#[derive(Debug)]
pub struct MetricCard {
    /// Current value as text.
    pub value: String,
    /// Value of an earlier fetch, when known.
    pub previous_value: Option<String>,
    /// Direction of the change since the earlier fetch.
    pub trend: TrendDirection,
    /// Colour of the card as a hex code.
    pub color: String,
    /// Caption of the card.
    pub subtitle: String,
}

/// Direction of a metric's trend.
#[derive(Debug, Clone, Copy, PartialEq, Eq, Structural)]
pub enum TrendDirection {
    Up,
    Down,
    Stable,
    Unknown,
}

/// An alert raised by the health assessment.
#[derive(Debug)]
pub struct NetworkAlert {
    /// How serious the condition is.
    pub severity: AlertSeverity,
    /// What was observed.
    pub message: String,
    /// Time of the assessment in milliseconds since the Unix epoch.
    pub triggered_at: i64,
    /// What the alert is about.
    pub category: AlertCategory,
}

/// Severity of an alert.
#[derive(Debug, Clone, Copy, PartialEq, Eq, Structural)]
pub enum AlertSeverity {
    Info,
    Warning,
    Critical,
}

/// Subject of an alert.
#[derive(Debug, Clone, Copy, PartialEq, Eq, Structural)]
pub enum AlertCategory {
    SkipRate,
    ValidatorCount,
    NetworkEfficiency,
    Performance,
}

impl AlertCategory {
    /// Display text of the category.
    pub open spec fn spec_text(self) -> Seq<char> {
        match self {
            Self::SkipRate => "Skip Rate"@,
            Self::ValidatorCount => "Validator Count"@,
            Self::NetworkEfficiency => "Network Efficiency"@,
            Self::Performance => "Performance"@,
        }
    }

    /// Display text of the category.
    pub fn to_string(&self) -> (s: String)
        ensures
            s@ == self.spec_text(),
    {
        match self {
            Self::SkipRate => "Skip Rate".to_owned(),
            Self::ValidatorCount => "Validator Count".to_owned(),
            Self::NetworkEfficiency => "Network Efficiency".to_owned(),
            Self::Performance => "Performance".to_owned(),
        }
    }
}

/// Everything derived from one fetch.
#[derive(Debug)]
pub struct BlockProductionData {
    /// Validator records in ascending order of skip rate.
    pub validators: Vec<ValidatorSkipRate>,
    /// Aggregate statistics.
    pub statistics: SkipRateStatistics,
    /// Distribution of the skip rates.
    pub distribution: SkipRateDistribution,
    /// Health of the network.
    pub network_health: NetworkHealthSummary,
    /// One snapshot per validator, in the order of `validators`.
    pub performance_snapshots: Vec<ValidatorPerformanceSnapshot>,
    /// Slot range of the fetch.
    pub slot_range: SlotRange,
    /// Time of the fetch in milliseconds since the Unix epoch.
    pub fetched_at: i64,
}

/// Observations about one exchange with the endpoint.
#[derive(Debug)]
pub struct ResponseMetadata {
    /// Endpoint that answered.
    pub rpc_endpoint: String,
    /// Time to the answer in milliseconds.
    pub response_time_ms: u64,
    /// Attempts made beyond the first.
    pub retry_attempts: u32,
    /// Whether the endpoint limited the rate of requests.
    pub rate_limited: bool,
}

/// Parameters of a `getBlockProduction` request.
#[derive(Debug)]
pub struct BlockProductionRequest {
    /// Slot range to ask for; the endpoint's default when absent.
    pub range: Option<SlotRange>,
    /// Commitment level: "processed", "confirmed" or "finalized".
    pub commitment: Option<String>,
}

impl Clone for BlockProductionRequest {
    fn clone(&self) -> (r: Self)
        ensures
            r == *self,
    {
        Self {
            range: self.range,
            commitment: match &self.commitment {
                Some(c) => Some(c.clone()),
                None => None,
            },
        }
    }
}

impl Default for BlockProductionRequest {
    fn default() -> (r: Self)
        ensures
            r.range is None,
            r.commitment is None,
    {
        Self { range: None, commitment: None }
    }
}

} // verus!
