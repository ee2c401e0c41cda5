//! Aggregate statistics of the validator records of one fetch.

use vstd::prelude::*;
use crate::aggregate::{
    all_wf, count_in, in_group, lemma_members_are_records, lemma_missed_le_slots,
    lemma_total_le_all, lemma_total_ranked, lemma_total_views, members, rates_in, rates_of,
    sum_over, total, Group, Measure,
};
use crate::percent::{
    ascending, calculate_percentile, lemma_percentile_monotonic, lemma_ratio_micros_bounds,
    nearest_rank, ratio_micros, Percent,
};
use crate::ranking::{
    in_rank_order, lemma_ranked_in_order, lemma_ranked_wf, lower_rate, overtakes, ranked,
    record_view, record_views, sort_by_skip_rate,
};
use crate::types::{lemma_record_bounds, weight_of, SkipRateStatistics, ValidatorSkipRate};

verus! {

/// Whether the assigned slots and the produced blocks of the records each
/// add up within 64 bits.
pub open spec fn totals_fit(records: Seq<ValidatorSkipRate>) -> bool {
    &&& total(records, Group::All, Measure::LeaderSlots) <= u64::MAX
    &&& total(records, Group::All, Measure::BlocksProduced) <= u64::MAX
}

/// The median of ascending samples: the middle one, or the mean of the two
/// in the middle, rounded down; zero for an empty sample.
pub open spec fn median_of(rates: Seq<Percent>) -> Percent {
    let n = rates.len() as int;
    if n == 0 {
        Percent { micros: 0 }
    } else if n % 2 == 0 {
        Percent { micros: ((rates[n / 2 - 1].micros + rates[n / 2].micros) / 2) as u128 }
    } else {
        rates[n / 2]
    }
}

/// The mean of the reported skip rates, rounded down; zero without records.
pub open spec fn average_of(records: Seq<ValidatorSkipRate>) -> Percent {
    if records.len() == 0 {
        Percent { micros: 0 }
    } else {
        Percent {
            micros: (total(records, Group::All, Measure::SkipRate) / records.len()) as u128,
        }
    }
}

/// Missed slots out of assigned slots within a group.
pub open spec fn group_skip_rate(records: Seq<ValidatorSkipRate>, group: Group) -> Percent {
    Percent {
        micros: ratio_micros(
            total(records, group, Measure::MissedSlots) as int,
            total(records, group, Measure::LeaderSlots) as int,
        ) as u128,
    }
}

/// Produced blocks out of assigned slots within a group.
pub open spec fn group_efficiency(records: Seq<ValidatorSkipRate>, group: Group) -> Percent {
    Percent {
        micros: ratio_micros(
            total(records, group, Measure::BlocksProduced) as int,
            total(records, group, Measure::LeaderSlots) as int,
        ) as u128,
    }
}

/// The statistics of records in canonical order, with the weighted skip
/// rate given.
pub open spec fn statistics_of(
    records: Seq<ValidatorSkipRate>,
    weighted: Percent,
) -> SkipRateStatistics {
    let significant = rates_of(members(records, Group::Significant));
    SkipRateStatistics {
        total_validators: records.len() as usize,
        total_leader_slots: total(records, Group::All, Measure::LeaderSlots) as u64,
        total_blocks_produced: total(records, Group::All, Measure::BlocksProduced) as u64,
        total_missed_slots: total(records, Group::All, Measure::MissedSlots) as u64,
        overall_skip_rate_percent: group_skip_rate(records, Group::All),
        average_skip_rate_percent: average_of(records),
        median_skip_rate_percent: median_of(rates_of(records)),
        weighted_skip_rate_percent: weighted,
        significant_validators_skip_rate_percent: group_skip_rate(records, Group::Significant),
        high_stake_skip_rate_percent: group_skip_rate(records, Group::HighStake),
        perfect_validators: total(records, Group::Perfect, Measure::Count) as usize,
        concerning_validators: total(records, Group::Concerning, Measure::Count) as usize,
        offline_validators: total(records, Group::Offline, Measure::Count) as usize,
        low_activity_validators: total(records, Group::LowActivity, Measure::Count) as usize,
        high_activity_validators: total(records, Group::HighStake, Measure::Count) as usize,
        significant_validators: total(records, Group::Significant, Measure::Count) as usize,
        skip_rate_90th_percentile: nearest_rank(rates_of(records), 90),
        skip_rate_95th_percentile: nearest_rank(rates_of(records), 95),
        significant_skip_rate_90th_percentile: nearest_rank(significant, 90),
        significant_skip_rate_95th_percentile: nearest_rank(significant, 95),
        network_efficiency_percent: group_efficiency(records, Group::All),
        weighted_network_efficiency_percent: group_efficiency(records, Group::Significant),
    }
}

/// The three slot totals of a group, each within 64 bits.
fn group_totals(records: &Vec<ValidatorSkipRate>, group: Group) -> (t: (u64, u64, u64))
    requires
        all_wf(records@),
        totals_fit(records@),
    ensures
        t.0 == total(records@, group, Measure::LeaderSlots),
        t.1 == total(records@, group, Measure::BlocksProduced),
        t.2 == total(records@, group, Measure::MissedSlots),
        t.2 <= t.0,
{
    proof {
        lemma_total_le_all(records@, group, Measure::LeaderSlots);
        lemma_total_le_all(records@, group, Measure::BlocksProduced);
        lemma_missed_le_slots(records@, group);
    }
    let slots = sum_over(records, group, Measure::LeaderSlots);
    let produced = sum_over(records, group, Measure::BlocksProduced);
    let missed = sum_over(records, group, Measure::MissedSlots);
    (slots as u64, produced as u64, missed as u64)
}

/// The median of ascending samples.
pub fn median(rates: &Vec<Percent>) -> (m: Percent)
    ensures
        m == median_of(rates@),
{
    let n = rates.len();
    if n == 0 {
        Percent { micros: 0 }
    } else if n % 2 == 0 {
        let mid = n / 2;
        let a = rates[mid - 1].micros;
        let b = rates[mid].micros;
        // Half of each and half of what the halving left over: the sum itself may not fit.
        Percent { micros: a / 2 + b / 2 + (a % 2 + b % 2) / 2 }
    } else {
        rates[n / 2]
    }
}

/// The statistics of one fetch. The records may come in any order: the
/// median and the percentiles are taken over the records in canonical
/// order. `logs` holds for each record, in the order given, the natural
/// logarithm of its slots in millionths.
pub fn calculate_statistics(validators: &Vec<ValidatorSkipRate>, logs: &Vec<u32>) -> (stats:
    SkipRateStatistics)
    requires
        all_wf(validators@),
        totals_fit(validators@),
    ensures
        stats == statistics_of(
            ranked(validators@, false),
            weighted_skip_rate_of(validators@, logs@),
        ),
{
    let weighted = weighted_skip_rate(validators, logs);
    let ordered = sort_by_skip_rate(validators, false);
    proof {
        lemma_ranked_wf(validators@, false);
        lemma_total_ranked(validators@, false, Group::All, Measure::LeaderSlots);
        lemma_total_ranked(validators@, false, Group::All, Measure::BlocksProduced);
        lemma_members_of_all(ordered@);
    }
    let n = ordered.len();
    let (slots, produced, missed) = group_totals(&ordered, Group::All);
    let (significant_slots, significant_produced, significant_missed) = group_totals(
        &ordered,
        Group::Significant,
    );
    let (high_stake_slots, _, high_stake_missed) = group_totals(&ordered, Group::HighStake);
    let rate_sum = sum_over(&ordered, Group::All, Measure::SkipRate);
    let average = if n == 0 {
        Percent { micros: 0 }
    } else {
        Percent { micros: rate_sum / (n as u128) }
    };
    let rates = rates_in(&ordered, Group::All);
    let significant_rates = rates_in(&ordered, Group::Significant);
    SkipRateStatistics {
        total_validators: n,
        total_leader_slots: slots,
        total_blocks_produced: produced,
        total_missed_slots: missed,
        overall_skip_rate_percent: Percent::of(missed, slots),
        average_skip_rate_percent: average,
        median_skip_rate_percent: median(&rates),
        weighted_skip_rate_percent: weighted,
        significant_validators_skip_rate_percent: Percent::of(
            significant_missed,
            significant_slots,
        ),
        high_stake_skip_rate_percent: Percent::of(high_stake_missed, high_stake_slots),
        perfect_validators: count_in(&ordered, Group::Perfect),
        concerning_validators: count_in(&ordered, Group::Concerning),
        offline_validators: count_in(&ordered, Group::Offline),
        low_activity_validators: count_in(&ordered, Group::LowActivity),
        high_activity_validators: count_in(&ordered, Group::HighStake),
        significant_validators: count_in(&ordered, Group::Significant),
        skip_rate_90th_percentile: calculate_percentile(&rates, 90),
        skip_rate_95th_percentile: calculate_percentile(&rates, 95),
        significant_skip_rate_90th_percentile: calculate_percentile(&significant_rates, 90),
        significant_skip_rate_95th_percentile: calculate_percentile(&significant_rates, 95),
        network_efficiency_percent: Percent::of(produced, slots),
        weighted_network_efficiency_percent: Percent::of(significant_produced, significant_slots),
    }
}

/// Every record is a member of the group of all.
pub proof fn lemma_members_of_all(records: Seq<ValidatorSkipRate>)
    ensures
        members(records, Group::All) == records,
    decreases records.len(),
{
    if records.len() > 0 {
        lemma_members_of_all(records.drop_last());
        assert(records.drop_last().push(records.last()) =~= records);
    } else {
        assert(members(records, Group::All) =~= records);
    }
}

/// A record whose exact rate is not above that of another does not report
/// a higher rate either: rounding down keeps the order.
pub proof fn lemma_reported_rate_keeps_order(a: ValidatorSkipRate, b: ValidatorSkipRate)
    requires
        a.wf(),
        b.wf(),
        !lower_rate(b, a),
    ensures
        a.skip_rate_percent.micros <= b.skip_rate_percent.micros,
{
    let (ma, sa) = (a.missed_slots as int, a.leader_slots as int);
    let (mb, sb) = (b.missed_slots as int, b.leader_slots as int);
    lemma_ratio_micros_bounds(ma, sa);
    lemma_ratio_micros_bounds(mb, sb);
    if sa > 0 && sb > 0 {
        let qa = ma * 100_000_000 / sa;
        let qb = mb * 100_000_000 / sb;
        assert(qa * sa <= ma * 100_000_000) by (nonlinear_arith)
            requires
                qa == ma * 100_000_000 / sa,
                sa > 0,
        ;
        assert(qa * sb <= mb * 100_000_000) by (nonlinear_arith)
            requires
                qa * sa <= ma * 100_000_000,
                ma * sb <= mb * sa,
                sa > 0,
                sb > 0,
                qa >= 0,
                ma >= 0,
                mb >= 0,
        ;
        assert(qa <= qb) by (nonlinear_arith)
            requires
                qa * sb <= mb * 100_000_000,
                qb == mb * 100_000_000 / sb,
                sb > 0,
        ;
    }
}

/// The reported rates of well-formed records in canonical order ascend.
pub proof fn lemma_rates_ascend(records: Seq<ValidatorSkipRate>)
    requires
        all_wf(records),
        in_rank_order(records, false),
    ensures
        ascending(rates_of(records)),
{
    let rates = rates_of(records);
    assert forall|i: int, j: int| 0 <= i <= j < rates.len() implies rates[i].micros
        <= rates[j].micros by {
        if i < j {
            assert(!overtakes(records[j], records[i], false));
            lemma_reported_rate_keeps_order(records[i], records[j]);
        }
    }
}

/// The members of a group among well-formed records in canonical order are
/// well formed and in canonical order.
pub proof fn lemma_members_keep_order(records: Seq<ValidatorSkipRate>, group: Group)
    requires
        all_wf(records),
        in_rank_order(records, false),
    ensures
        all_wf(members(records, group)),
        in_rank_order(members(records, group), false),
    decreases records.len(),
{
    if records.len() > 0 {
        let shorter = records.drop_last();
        assert(all_wf(shorter)) by {
            assert forall|i: int| 0 <= i < shorter.len() implies (#[trigger] shorter[i]).wf() by {
                assert(shorter[i] == records[i]);
            }
        }
        assert(in_rank_order(shorter, false)) by {
            assert forall|i: int, j: int| 0 <= i < j < shorter.len() implies !overtakes(
                #[trigger] shorter[j],
                #[trigger] shorter[i],
                false,
            ) by {
                assert(shorter[i] == records[i]);
                assert(shorter[j] == records[j]);
            }
        }
        lemma_members_keep_order(shorter, group);
        lemma_members_are_records(shorter, group);
        let inner = members(shorter, group);
        let out = members(records, group);
        let last = records[records.len() - 1];
        assert(last.wf());
        if in_group(records.last(), group) {
            assert forall|i: int| 0 <= i < out.len() implies (#[trigger] out[i]).wf() by {
                if i < inner.len() {
                    assert(out[i] == inner[i]);
                }
            }
            assert forall|i: int, j: int| 0 <= i < j < out.len() implies !overtakes(
                #[trigger] out[j],
                #[trigger] out[i],
                false,
            ) by {
                assert(out[i] == inner[i]);
                if j < inner.len() {
                    assert(out[j] == inner[j]);
                } else {
                    let k = choose|k: int| 0 <= k < shorter.len() && shorter[k] == inner[i];
                    assert(records[k] == shorter[k]);
                    assert(!overtakes(records[records.len() - 1], records[k], false));
                }
            }
        }
    }
}

/// A higher percentile never reports a lower rate: over the well-formed
/// records in canonical order, over the significant ones among them, and
/// in the statistics of any well-formed records.
pub proof fn lemma_percentiles_ascend(
    records: Seq<ValidatorSkipRate>,
    weighted: Percent,
    lower: nat,
    higher: nat,
)
    requires
        all_wf(records),
        lower < higher,
    ensures
        ({
            let ordered = ranked(records, false);
            let significant = rates_of(members(ordered, Group::Significant));
            let stats = statistics_of(ordered, weighted);
            &&& ascending(rates_of(ordered))
            &&& ascending(significant)
            &&& nearest_rank(rates_of(ordered), lower).micros <= nearest_rank(
                rates_of(ordered),
                higher,
            ).micros
            &&& nearest_rank(significant, lower).micros <= nearest_rank(significant, higher).micros
            &&& stats.skip_rate_90th_percentile.micros <= stats.skip_rate_95th_percentile.micros
            &&& stats.significant_skip_rate_90th_percentile.micros
                <= stats.significant_skip_rate_95th_percentile.micros
        }),
{
    let ordered = ranked(records, false);
    lemma_ranked_in_order(records, false);
    lemma_ranked_wf(records, false);
    lemma_rates_ascend(ordered);
    lemma_members_keep_order(ordered, Group::Significant);
    lemma_rates_ascend(members(ordered, Group::Significant));
    lemma_percentile_monotonic(rates_of(ordered), lower, higher);
    lemma_percentile_monotonic(rates_of(ordered), 90, 95);
    lemma_percentile_monotonic(rates_of(members(ordered, Group::Significant)), lower, higher);
    lemma_percentile_monotonic(rates_of(members(ordered, Group::Significant)), 90, 95);
}

/// The sum of the weights of the significant validators among the
/// records, each with its logarithm from `logs`.
pub open spec fn weight_sum(records: Seq<ValidatorSkipRate>, logs: Seq<u32>) -> int
    decreases records.len(),
{
    if records.len() == 0 || logs.len() != records.len() {
        0
    } else {
        weight_sum(records.drop_last(), logs.drop_last()) + (if records.last().spec_is_significant() {
            weight_of(records.last().leader_slots as int, logs.last() as int)
        } else {
            0
        })
    }
}

/// The sum of reported rate times weight over the significant validators
/// among the records.
pub open spec fn weighted_rate_sum(records: Seq<ValidatorSkipRate>, logs: Seq<u32>) -> int
    decreases records.len(),
{
    if records.len() == 0 || logs.len() != records.len() {
        0
    } else {
        weighted_rate_sum(records.drop_last(), logs.drop_last()) + (
        if records.last().spec_is_significant() {
            records.last().skip_rate_percent.micros * weight_of(
                records.last().leader_slots as int,
                logs.last() as int,
            )
        } else {
            0
        })
    }
}

/// The weighted skip rate: the mean of the reported rates of the
/// significant validators, each weighted by [`weight_of`], rounded down;
/// zero when the weights add up to nothing, as they do when there is not
/// one logarithm for each record.
pub open spec fn weighted_skip_rate_of(records: Seq<ValidatorSkipRate>, logs: Seq<u32>) -> Percent {
    if weight_sum(records, logs) <= 0 {
        Percent { micros: 0 }
    } else {
        Percent { micros: (weighted_rate_sum(records, logs) / weight_sum(records, logs)) as u128 }
    }
}

/// The weights depend on what the records say alone.
pub proof fn lemma_weighted_views(
    one: Seq<ValidatorSkipRate>,
    two: Seq<ValidatorSkipRate>,
    logs: Seq<u32>,
)
    requires
        record_views(one) == record_views(two),
    ensures
        weight_sum(one, logs) == weight_sum(two, logs),
        weighted_rate_sum(one, logs) == weighted_rate_sum(two, logs),
        weighted_skip_rate_of(one, logs) == weighted_skip_rate_of(two, logs),
    decreases one.len(),
{
    assert(one.len() == record_views(one).len());
    assert(two.len() == record_views(two).len());
    if one.len() > 0 && logs.len() == one.len() {
        assert(record_views(one)[one.len() - 1] == record_view(one.last()));
        assert(record_views(two)[two.len() - 1] == record_view(two.last()));
        assert(record_views(one.drop_last()) =~= record_views(one).drop_last());
        assert(record_views(two.drop_last()) =~= record_views(two).drop_last());
        lemma_weighted_views(one.drop_last(), two.drop_last(), logs.drop_last());
    }
}

/// The statistics of records that say the same are the same: the
/// statistics depend on nothing but the records and the weighted rate.
pub proof fn lemma_statistics_reproducible(
    one: Seq<ValidatorSkipRate>,
    two: Seq<ValidatorSkipRate>,
    weighted: Percent,
)
    requires
        record_views(one) == record_views(two),
    ensures
        statistics_of(one, weighted) == statistics_of(two, weighted),
{
    assert(one.len() == record_views(one).len());
    assert(two.len() == record_views(two).len());
    lemma_total_views(one, two, Group::All, Measure::LeaderSlots);
    lemma_total_views(one, two, Group::All, Measure::BlocksProduced);
    lemma_total_views(one, two, Group::All, Measure::MissedSlots);
    lemma_total_views(one, two, Group::All, Measure::SkipRate);
    lemma_total_views(one, two, Group::Significant, Measure::LeaderSlots);
    lemma_total_views(one, two, Group::Significant, Measure::BlocksProduced);
    lemma_total_views(one, two, Group::Significant, Measure::MissedSlots);
    lemma_total_views(one, two, Group::Significant, Measure::Count);
    lemma_total_views(one, two, Group::HighStake, Measure::LeaderSlots);
    lemma_total_views(one, two, Group::HighStake, Measure::MissedSlots);
    lemma_total_views(one, two, Group::HighStake, Measure::Count);
    lemma_total_views(one, two, Group::Perfect, Measure::Count);
    lemma_total_views(one, two, Group::Concerning, Measure::Count);
    lemma_total_views(one, two, Group::Offline, Measure::Count);
    lemma_total_views(one, two, Group::LowActivity, Measure::Count);
}

/// The weighted skip rate of the validators, where `logs` holds for each
/// validator, in the order given, the natural logarithm of its slots in
/// millionths.
pub fn weighted_skip_rate(validators: &Vec<ValidatorSkipRate>, logs: &Vec<u32>) -> (rate: Percent)
    requires
        all_wf(validators@),
    ensures
        rate == weighted_skip_rate_of(validators@, logs@),
{
    let n = validators.len();
    if logs.len() != n {
        return Percent { micros: 0 };
    }
    let mut weights: u128 = 0;
    let mut weighted: u128 = 0;
    let mut i: usize = 0;
    assert(validators@.take(0) =~= Seq::<ValidatorSkipRate>::empty());
    while i < n
        invariant
            n == validators@.len(),
            n == logs@.len(),
            i <= n,
            all_wf(validators@),
            weights == weight_sum(validators@.take(i as int), logs@.take(i as int)),
            weighted == weighted_rate_sum(validators@.take(i as int), logs@.take(i as int)),
            weights <= i * 0xffff_ffff,
            weighted <= i * 0xffff_ffff_ffff_ffff,
        decreases n - i,
    {
        let v = &validators[i];
        proof {
            assert(validators@.take(i + 1).drop_last() =~= validators@.take(i as int));
            assert(logs@.take(i + 1).drop_last() =~= logs@.take(i as int));
            assert(validators@.take(i + 1).last() == validators@[i as int]);
            assert(logs@.take(i + 1).last() == logs@[i as int]);
            assert(validators@[i as int].wf());
            lemma_record_bounds(validators@[i as int]);
            assert((i + 1) * 0xffff_ffff_ffff_ffff <= 0xffff_ffff_ffff_ffff * 0xffff_ffff_ffff_ffff)
                by (nonlinear_arith)
                requires
                    i + 1 <= 0xffff_ffff_ffff_ffff,
            ;
            assert((i + 1) * 0xffff_ffff <= 0xffff_ffff_ffff_ffff * 0xffff_ffff) by (nonlinear_arith)
                requires
                    i + 1 <= 0xffff_ffff_ffff_ffff,
            ;
        }
        if v.is_significant() {
            let weight = v.significance_weight(logs[i]) as u128;
            assert(v.skip_rate_percent.micros * weight <= 100_000_000 * 0xffff_ffff)
                by (nonlinear_arith)
                requires
                    v.skip_rate_percent.micros <= 100_000_000,
                    weight <= 0xffff_ffff,
            ;
            weights = weights + weight;
            weighted = weighted + v.skip_rate_percent.micros * weight;
        }
        i = i + 1;
    }
    assert(validators@.take(n as int) =~= validators@);
    assert(logs@.take(n as int) =~= logs@);
    if weights == 0 {
        Percent { micros: 0 }
    } else {
        Percent { micros: weighted / weights }
    }
}

} // verus!
