//! The analytics engine: from the raw block production of one fetch to
//! records in canonical order with their statistics, distribution, health
//! assessment and snapshots.

use vstd::prelude::*;
use crate::aggregate::{all_wf, lemma_total_ranked, sum_over, Group, Measure};
use crate::distribution::{
    calculate_distribution, counted_in_buckets, distribution_view, is_distribution,
    lemma_bucket_counts_add_up, lemma_distribution_reproducible,
};
use crate::error::BlockProductionError;
use crate::health::{
    calculate_network_health, health_view, is_health, lemma_health_reproducible,
};
use crate::percent::{ratio_micros, Percent};
use crate::ranking::{
    in_rank_order, lemma_ranked_in_order, lemma_ranked_views, lemma_ranked_wf, ranked,
    record_views, sort_by_skip_rate,
};
use crate::statistics::{
    calculate_statistics, lemma_statistics_reproducible, lemma_weighted_views, statistics_of,
    totals_fit, weighted_skip_rate_of,
};
use crate::timing::now_millis;
use crate::types::{
    category_of_counts, missed_of, BlockProductionData, BlockProductionValue, SlotRange,
    ValidatorPerformanceSnapshot, ValidatorSkipRate,
};

verus! {

/// Whether `snapshot` is the snapshot of `v` for `slot_range` at
/// `timestamp`.
pub open spec fn is_snapshot(
    snapshot: ValidatorPerformanceSnapshot,
    v: ValidatorSkipRate,
    slot_range: SlotRange,
    timestamp: i64,
) -> bool {
    &&& snapshot.timestamp == timestamp
    &&& snapshot.slot_range == slot_range
    &&& snapshot.validator_pubkey == v.pubkey
    &&& snapshot.skip_rate_percent == v.skip_rate_percent
    &&& snapshot.leader_slots == v.leader_slots
    &&& snapshot.blocks_produced == v.blocks_produced
    &&& snapshot.performance_category == category_of_counts(
        v.missed_slots as int,
        v.leader_slots as int,
    )
}

/// Whether `snapshots` hold one snapshot for each record, in order.
pub open spec fn are_snapshots(
    snapshots: Seq<ValidatorPerformanceSnapshot>,
    records: Seq<ValidatorSkipRate>,
    slot_range: SlotRange,
    timestamp: i64,
) -> bool {
    &&& snapshots.len() == records.len()
    &&& forall|i: int|
        0 <= i < records.len() ==> is_snapshot(
            #[trigger] snapshots[i],
            records[i],
            slot_range,
            timestamp,
        )
}

/// One snapshot for each validator, in the order of the validators.
pub fn create_performance_snapshots(
    validators: &Vec<ValidatorSkipRate>,
    slot_range: &SlotRange,
    timestamp: i64,
) -> (snapshots: Vec<ValidatorPerformanceSnapshot>)
    ensures
        are_snapshots(snapshots@, validators@, *slot_range, timestamp),
{
    let n = validators.len();
    let mut snapshots: Vec<ValidatorPerformanceSnapshot> = Vec::new();
    let mut i: usize = 0;
    while i < n
        invariant
            n == validators@.len(),
            i <= n,
            snapshots@.len() == i,
            forall|j: int|
                0 <= j < i ==> is_snapshot(
                    #[trigger] snapshots@[j],
                    validators@[j],
                    *slot_range,
                    timestamp,
                ),
        decreases n - i,
    {
        let v = &validators[i];
        snapshots.push(
            ValidatorPerformanceSnapshot {
                timestamp,
                slot_range: *slot_range,
                validator_pubkey: v.pubkey.clone(),
                skip_rate_percent: v.skip_rate_percent,
                leader_slots: v.leader_slots,
                blocks_produced: v.blocks_produced,
                performance_category: v.performance_category(),
            },
        );
        i = i + 1;
    }
    snapshots
}

/// The record of one raw entry.
pub open spec fn record_of(entry: (String, (u64, u64))) -> ValidatorSkipRate {
    let missed = missed_of(entry.1.0 as int, entry.1.1 as int);
    ValidatorSkipRate {
        pubkey: entry.0,
        leader_slots: entry.1.0,
        blocks_produced: entry.1.1,
        missed_slots: missed as u64,
        skip_rate_percent: Percent { micros: ratio_micros(missed, entry.1.0 as int) as u128 },
    }
}

/// The records of the raw entries, in their order.
pub open spec fn records_of(entries: Seq<(String, (u64, u64))>) -> Seq<ValidatorSkipRate> {
    entries.map_values(|entry: (String, (u64, u64))| record_of(entry))
}

/// Whether the assigned slots and the produced blocks of the raw entries
/// each add up within 64 bits.
pub open spec fn entries_fit(entries: Seq<(String, (u64, u64))>) -> bool {
    totals_fit(records_of(entries))
}

/// Whether `data` is what the analytics engine derives from `value` at
/// `timestamp`: the records in canonical order with their statistics,
/// distribution, health and snapshots. `logs` holds for each entry of
/// `value`, in the order of the entries, the natural logarithm of its
/// slots in millionths.
pub open spec fn is_analysis(
    data: BlockProductionData,
    value: BlockProductionValue,
    logs: Seq<u32>,
    timestamp: i64,
) -> bool {
    &&& data.validators@ == ranked(records_of(value.by_identity@), false)
    &&& data.validators@.len() == value.by_identity@.len()
    &&& all_wf(data.validators@)
    &&& in_rank_order(data.validators@, false)
    &&& data.statistics == statistics_of(
        data.validators@,
        weighted_skip_rate_of(records_of(value.by_identity@), logs),
    )
    &&& is_distribution(data.distribution, data.validators@)
    &&& is_health(data.network_health, data.statistics, data.validators@, timestamp)
    &&& are_snapshots(data.performance_snapshots@, data.validators@, value.range, timestamp)
    &&& data.slot_range == value.range
    &&& data.fetched_at == timestamp
}

/// Whether `e` is the error for a fetch without any validator.
pub open spec fn is_no_data(e: BlockProductionError, range: SlotRange) -> bool {
    &&& e matches BlockProductionError::NoData { requested_range, reason }
    &&& requested_range == Some((range.first_slot, range.last_slot))
    &&& reason matches Some(text)
    &&& text@ == "No block production data available for the specified slot range"@
}

/// Builds the records of the raw entries, in the order of the entries.
pub fn build_records(entries: &Vec<(String, (u64, u64))>) -> (records: Vec<ValidatorSkipRate>)
    ensures
        records@ == records_of(entries@),
        all_wf(records@),
{
    let n = entries.len();
    let mut records: Vec<ValidatorSkipRate> = Vec::new();
    let mut i: usize = 0;
    while i < n
        invariant
            n == entries@.len(),
            i <= n,
            records@.len() == i,
            forall|j: int| 0 <= j < i ==> #[trigger] records@[j] == record_of(entries@[j]),
            forall|j: int| 0 <= j < i ==> (#[trigger] records@[j]).wf(),
        decreases n - i,
    {
        let entry = &entries[i];
        let record = ValidatorSkipRate::new(entry.0.clone(), entry.1.0, entry.1.1);
        records.push(record);
        i = i + 1;
    }
    assert(records@ =~= records_of(entries@));
    records
}

/// Whether the slot counts of the raw entries add up within 64 bits, as
/// [`analyze_block_production`] needs them to.
pub fn slot_totals_fit(entries: &Vec<(String, (u64, u64))>) -> (fit: bool)
    ensures
        fit == entries_fit(entries@),
{
    let records = build_records(entries);
    let slots = sum_over(&records, Group::All, Measure::LeaderSlots);
    let produced = sum_over(&records, Group::All, Measure::BlocksProduced);
    slots <= u64::MAX as u128 && produced <= u64::MAX as u128
}

/// Derives everything from the raw block production of one fetch, stamped
/// with `timestamp`. A fetch without validators is no data, and nothing is
/// derived from it. `logs` holds for each entry, in the order of the
/// entries, the natural logarithm of its slots in millionths; it serves
/// the weighted skip rate only.
pub fn analyze_block_production(
    value: BlockProductionValue,
    logs: &Vec<u32>,
    timestamp: i64,
) -> (result: Result<BlockProductionData, BlockProductionError>)
    requires
        entries_fit(value.by_identity@),
    ensures
        result is Err <==> value.by_identity@.len() == 0,
        result matches Err(e) ==> is_no_data(e, value.range),
        result matches Ok(data) ==> is_analysis(data, value, logs@, timestamp),
{
    let slot_range = value.range;
    if value.by_identity.len() == 0 {
        return Err(
            BlockProductionError::NoData {
                requested_range: Some((slot_range.first_slot, slot_range.last_slot)),
                reason: Some(
                    "No block production data available for the specified slot range".to_owned(),
                ),
            },
        );
    }
    let records = build_records(&value.by_identity);
    let validators = sort_by_skip_rate(&records, false);
    proof {
        let raw = records@;
        lemma_ranked_in_order(raw, false);
        lemma_ranked_wf(raw, false);
        lemma_total_ranked(raw, false, Group::All, Measure::LeaderSlots);
        lemma_total_ranked(raw, false, Group::All, Measure::BlocksProduced);
    }
    let statistics = calculate_statistics(&records, logs);
    let distribution = calculate_distribution(&records);
    let network_health = calculate_network_health(&statistics, &validators, timestamp);
    let performance_snapshots = create_performance_snapshots(&validators, &slot_range, timestamp);
    Ok(
        BlockProductionData {
            validators,
            statistics,
            distribution,
            network_health,
            performance_snapshots,
            slot_range,
            fetched_at: timestamp,
        },
    )
}

/// Derives everything from the raw block production of one fetch, stamped
/// with the time of the call. `logs` holds for each entry, in the order of
/// the entries, the natural logarithm of its slots in millionths.
pub fn process_block_production_response(value: BlockProductionValue, logs: &Vec<u32>) -> (result:
    Result<BlockProductionData, BlockProductionError>)
    requires
        entries_fit(value.by_identity@),
    ensures
        result is Err <==> value.by_identity@.len() == 0,
        result matches Err(e) ==> is_no_data(e, value.range),
        result matches Ok(data) ==> is_analysis(data, value, logs@, data.fetched_at),
{
    let timestamp = now_millis();
    analyze_block_production(value, logs, timestamp)
}

/// What the raw entries say: the text of each identity with its two
/// counts.
pub open spec fn entry_views(entries: Seq<(String, (u64, u64))>) -> Seq<(Seq<char>, u64, u64)> {
    entries.map_values(|entry: (String, (u64, u64))| (entry.0@, entry.1.0, entry.1.1))
}

/// Two analyses of raw block production that says the same, with the same
/// logarithms, say the same in everything but the time they carry: the
/// same records in the same order, the same statistics, the same
/// distribution and the same health.
pub proof fn lemma_analysis_reproducible(
    logs: Seq<u32>,
    one: BlockProductionValue,
    first: BlockProductionData,
    first_time: i64,
    two: BlockProductionValue,
    second: BlockProductionData,
    second_time: i64,
)
    requires
        is_analysis(first, one, logs, first_time),
        is_analysis(second, two, logs, second_time),
        entry_views(one.by_identity@) == entry_views(two.by_identity@),
        one.range == two.range,
    ensures
        record_views(first.validators@) == record_views(second.validators@),
        first.statistics == second.statistics,
        first.slot_range == second.slot_range,
        distribution_view(first.distribution) == distribution_view(second.distribution),
        health_view(first.network_health) == health_view(second.network_health),
{
    let raw_one = records_of(one.by_identity@);
    let raw_two = records_of(two.by_identity@);
    assert(record_views(raw_one) =~= record_views(raw_two)) by {
        assert(one.by_identity@.len() == entry_views(one.by_identity@).len());
        assert(two.by_identity@.len() == entry_views(two.by_identity@).len());
        assert forall|i: int| 0 <= i < raw_one.len() implies record_views(raw_one)[i]
            == record_views(raw_two)[i] by {
            assert(entry_views(one.by_identity@)[i] == entry_views(two.by_identity@)[i]);
        }
    }
    lemma_ranked_views(raw_one, raw_two, false);
    lemma_weighted_views(raw_one, raw_two, logs);
    lemma_statistics_reproducible(
        first.validators@,
        second.validators@,
        weighted_skip_rate_of(raw_one, logs),
    );
    lemma_distribution_reproducible(
        first.validators@,
        first.distribution,
        second.validators@,
        second.distribution,
    );
    lemma_health_reproducible(
        first.statistics,
        first.validators@,
        first.network_health,
        first_time,
        second.validators@,
        second.network_health,
        second_time,
    );
}

/// In an analysis the counts of the buckets add up to the number of
/// validators that the statistics give.
pub proof fn lemma_analysis_counts_every_validator(
    value: BlockProductionValue,
    logs: Seq<u32>,
    data: BlockProductionData,
    timestamp: i64,
)
    requires
        is_analysis(data, value, logs, timestamp),
        data.validators@.len() <= usize::MAX,
    ensures
        counted_in_buckets(data.distribution.buckets@, 9) == data.statistics.total_validators,
        data.statistics.total_validators == value.by_identity@.len(),
{
    lemma_bucket_counts_add_up(data.distribution, data.validators@);
}

} // verus!
