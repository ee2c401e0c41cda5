//! The distribution of skip rates: nine fixed buckets and a percentile
//! ladder.

use vstd::prelude::*;
use crate::aggregate::{
    all_wf, bucket_of, count_in, lemma_total_le_all, lemma_total_ranked, lemma_total_views,
    rates_in, rates_of, sum_over, total, Group, Measure,
};
use crate::percent::{calculate_percentile, nearest_rank, ratio_micros, Percent};
use crate::ranking::{ranked, record_views, sort_by_skip_rate};
use crate::statistics::{lemma_members_of_all, lemma_percentiles_ascend, totals_fit};
use crate::text::texts_of;
use crate::types::{
    DistributionBucket, DistributionPlotData, PercentileData, SkipRateDistribution,
    ValidatorSkipRate,
};

verus! {

/// The label of a bucket of the distribution.
pub open spec fn bucket_label(k: int) -> Seq<char> {
    if k == 0 {
        "Perfect (0%)"@
    } else if k == 1 {
        "Excellent (0.1-1%)"@
    } else if k == 2 {
        "Good (1-2%)"@
    } else if k == 3 {
        "Average (2-5%)"@
    } else if k == 4 {
        "Concerning (5-10%)"@
    } else if k == 5 {
        "Poor (10-25%)"@
    } else if k == 6 {
        "Critical (25-50%)"@
    } else if k == 7 {
        "Failing (50-99%)"@
    } else {
        "Dead (100%)"@
    }
}

/// The lower bound of a bucket in whole percent. The bucket of rate zero
/// and the bucket of one hundred percent hold that one rate only; every
/// other bucket holds the rates from its lower bound up to, not including,
/// its upper bound, and the second bucket does not hold rate zero.
pub open spec fn bucket_min(k: int) -> int {
    if k <= 1 {
        0
    } else if k == 2 {
        1
    } else if k == 3 {
        2
    } else if k == 4 {
        5
    } else if k == 5 {
        10
    } else if k == 6 {
        25
    } else if k == 7 {
        50
    } else {
        100
    }
}

/// The upper bound of a bucket in whole percent.
pub open spec fn bucket_max(k: int) -> int {
    if k == 0 {
        0
    } else if k == 1 {
        1
    } else if k == 2 {
        2
    } else if k == 3 {
        5
    } else if k == 4 {
        10
    } else if k == 5 {
        25
    } else if k == 6 {
        50
    } else {
        100
    }
}

/// The percentiles of the ladder.
pub open spec fn ladder() -> Seq<u8> {
    seq![10u8, 20u8, 30u8, 40u8, 50u8, 60u8, 70u8, 80u8, 90u8, 95u8, 99u8]
}

/// Whether `bucket` is bucket `k` of the distribution of the records.
pub open spec fn is_bucket(bucket: DistributionBucket, records: Seq<ValidatorSkipRate>, k: int) -> bool {
    &&& bucket.range_label@ == bucket_label(k)
    &&& bucket.min_percent.micros == bucket_min(k) * 1_000_000
    &&& bucket.max_percent.micros == bucket_max(k) * 1_000_000
    &&& bucket.validator_count == total(records, Group::Bucket(k as u8), Measure::Count)
    &&& bucket.percentage_of_total.micros == ratio_micros(
        bucket.validator_count as int,
        records.len() as int,
    )
    &&& bucket.total_slots == total(records, Group::Bucket(k as u8), Measure::LeaderSlots)
}

/// The step of the ladder at percentile `p` over the given rates.
pub open spec fn ladder_step(rates: Seq<Percent>, p: u8) -> PercentileData {
    PercentileData { percentile: p, skip_rate_percent: nearest_rank(rates, p as nat) }
}

/// Whether `distribution` is the distribution of the records.
pub open spec fn is_distribution(
    distribution: SkipRateDistribution,
    records: Seq<ValidatorSkipRate>,
) -> bool {
    let plot = distribution.plot_data;
    &&& distribution.buckets@.len() == 9
    &&& forall|k: int| 0 <= k < 9 ==> is_bucket(#[trigger] distribution.buckets@[k], records, k)
    &&& distribution.percentiles@.len() == 11
    &&& forall|i: int|
        0 <= i < 11 ==> #[trigger] distribution.percentiles@[i] == ladder_step(
            rates_of(records),
            ladder()[i],
        )
    &&& plot.histogram_labels@.len() == 9
    &&& forall|k: int| 0 <= k < 9 ==> (#[trigger] plot.histogram_labels@[k])@ == bucket_label(k)
    &&& plot.histogram_values@.len() == 9
    &&& forall|k: int|
        0 <= k < 9 ==> #[trigger] plot.histogram_values@[k] == distribution.buckets@[k].validator_count
    &&& plot.percentile_x@ == ladder()
    &&& plot.percentile_y@.len() == 11
    &&& forall|i: int|
        0 <= i < 11 ==> #[trigger] plot.percentile_y@[i] == nearest_rank(
            rates_of(records),
            ladder()[i] as nat,
        )
}

/// The validators counted in the first `k` buckets.
pub open spec fn counted_in_buckets(buckets: Seq<DistributionBucket>, k: nat) -> nat
    decreases k,
{
    if k == 0 {
        0
    } else {
        counted_in_buckets(buckets, (k - 1) as nat) + buckets[k - 1].validator_count as nat
    }
}

/// The records that fall into the first `k` buckets.
pub open spec fn in_first_buckets(records: Seq<ValidatorSkipRate>, k: nat) -> nat
    decreases k,
{
    if k == 0 {
        0
    } else {
        in_first_buckets(records, (k - 1) as nat) + total(
            records,
            Group::Bucket((k - 1) as u8),
            Measure::Count,
        )
    }
}

proof fn lemma_in_first_buckets_step(records: Seq<ValidatorSkipRate>, k: nat)
    requires
        records.len() > 0,
        k <= 9,
    ensures
        in_first_buckets(records, k) == in_first_buckets(records.drop_last(), k) + (if bucket_of(
            records.last().missed_slots as int,
            records.last().leader_slots as int,
        ) < k {
            1nat
        } else {
            0nat
        }),
    decreases k,
{
    if k > 0 {
        lemma_in_first_buckets_step(records, (k - 1) as nat);
    }
}

/// Every record falls into exactly one of the nine buckets.
pub proof fn lemma_buckets_partition(records: Seq<ValidatorSkipRate>)
    ensures
        in_first_buckets(records, 9) == records.len(),
    decreases records.len(),
{
    if records.len() > 0 {
        lemma_buckets_partition(records.drop_last());
        lemma_in_first_buckets_step(records, 9);
    } else {
        reveal_with_fuel(in_first_buckets, 10);
    }
}

proof fn lemma_counted_in_buckets(
    buckets: Seq<DistributionBucket>,
    records: Seq<ValidatorSkipRate>,
    k: nat,
)
    requires
        k <= 9,
        buckets.len() == 9,
        forall|j: int| 0 <= j < 9 ==> is_bucket(#[trigger] buckets[j], records, j),
    ensures
        counted_in_buckets(buckets, k) == in_first_buckets(records, k),
    decreases k,
{
    if k > 0 {
        lemma_counted_in_buckets(buckets, records, (k - 1) as nat);
        assert(is_bucket(buckets[k - 1], records, k - 1));
    }
}

/// The counts of the buckets of a distribution add up to the number of
/// validators.
pub proof fn lemma_bucket_counts_add_up(
    distribution: SkipRateDistribution,
    records: Seq<ValidatorSkipRate>,
)
    requires
        is_distribution(distribution, records),
    ensures
        counted_in_buckets(distribution.buckets@, 9) == records.len(),
{
    lemma_counted_in_buckets(distribution.buckets@, records, 9);
    lemma_buckets_partition(records);
}

fn bucket_label_str(k: u8) -> (s: &'static str)
    ensures
        s@ == bucket_label(k as int),
{
    if k == 0 {
        "Perfect (0%)"
    } else if k == 1 {
        "Excellent (0.1-1%)"
    } else if k == 2 {
        "Good (1-2%)"
    } else if k == 3 {
        "Average (2-5%)"
    } else if k == 4 {
        "Concerning (5-10%)"
    } else if k == 5 {
        "Poor (10-25%)"
    } else if k == 6 {
        "Critical (25-50%)"
    } else if k == 7 {
        "Failing (50-99%)"
    } else {
        "Dead (100%)"
    }
}

fn bucket_bounds(k: u8) -> (b: (u64, u64))
    ensures
        b.0 == bucket_min(k as int),
        b.1 == bucket_max(k as int),
{
    if k == 0 {
        (0, 0)
    } else if k == 1 {
        (0, 1)
    } else if k == 2 {
        (1, 2)
    } else if k == 3 {
        (2, 5)
    } else if k == 4 {
        (5, 10)
    } else if k == 5 {
        (10, 25)
    } else if k == 6 {
        (25, 50)
    } else if k == 7 {
        (50, 100)
    } else {
        (100, 100)
    }
}

fn ladder_percentiles() -> (steps: Vec<u8>)
    ensures
        steps@ == ladder(),
{
    let mut steps: Vec<u8> = Vec::new();
    steps.push(10);
    steps.push(20);
    steps.push(30);
    steps.push(40);
    steps.push(50);
    steps.push(60);
    steps.push(70);
    steps.push(80);
    steps.push(90);
    steps.push(95);
    steps.push(99);
    assert(steps@ =~= ladder());
    steps
}

/// The distribution of the skip rates of one fetch. The records may come
/// in any order: the percentile ladder is taken over the records in
/// canonical order, and every record is counted in exactly one bucket.
pub fn calculate_distribution(validators: &Vec<ValidatorSkipRate>) -> (distribution:
    SkipRateDistribution)
    requires
        totals_fit(validators@),
    ensures
        is_distribution(distribution, ranked(validators@, false)),
        counted_in_buckets(distribution.buckets@, 9) == validators@.len(),
{
    let ordered = sort_by_skip_rate(validators, false);
    proof {
        lemma_total_ranked(validators@, false, Group::All, Measure::LeaderSlots);
        lemma_total_ranked(validators@, false, Group::All, Measure::BlocksProduced);
    }
    distribute(&ordered)
}

/// The distribution of records as they stand.
fn distribute(validators: &Vec<ValidatorSkipRate>) -> (distribution: SkipRateDistribution)
    requires
        totals_fit(validators@),
    ensures
        is_distribution(distribution, validators@),
        counted_in_buckets(distribution.buckets@, 9) == validators@.len(),
{
    let n = validators.len();
    let mut buckets: Vec<DistributionBucket> = Vec::new();
    let mut histogram_labels: Vec<String> = Vec::new();
    let mut histogram_values: Vec<usize> = Vec::new();
    let mut k: u8 = 0;
    while k < 9
        invariant
            k <= 9,
            n == validators@.len(),
            totals_fit(validators@),
            buckets@.len() == k,
            histogram_labels@.len() == k,
            histogram_values@.len() == k,
            forall|j: int| 0 <= j < k ==> is_bucket(#[trigger] buckets@[j], validators@, j),
            forall|j: int| 0 <= j < k ==> (#[trigger] histogram_labels@[j])@ == bucket_label(j),
            forall|j: int|
                0 <= j < k ==> #[trigger] histogram_values@[j] == buckets@[j].validator_count,
        decreases 9 - k,
    {
        let count = count_in(validators, Group::Bucket(k));
        proof {
            lemma_total_le_all(validators@, Group::Bucket(k), Measure::LeaderSlots);
        }
        let slots = sum_over(validators, Group::Bucket(k), Measure::LeaderSlots);
        let (low, high) = bucket_bounds(k);
        let bucket = DistributionBucket {
            range_label: bucket_label_str(k).to_owned(),
            min_percent: Percent::from_whole(low),
            max_percent: Percent::from_whole(high),
            validator_count: count,
            percentage_of_total: Percent::of(count as u64, n as u64),
            total_slots: slots as u64,
        };
        assert(is_bucket(bucket, validators@, k as int));
        buckets.push(bucket);
        histogram_labels.push(bucket_label_str(k).to_owned());
        histogram_values.push(count);
        k = k + 1;
    }
    let rates = rates_in(validators, Group::All);
    proof {
        lemma_members_of_all(validators@);
    }
    let steps = ladder_percentiles();
    let mut percentiles: Vec<PercentileData> = Vec::new();
    let mut percentile_x: Vec<u8> = Vec::new();
    let mut percentile_y: Vec<Percent> = Vec::new();
    let mut i: usize = 0;
    while i < 11
        invariant
            i <= 11,
            steps@ == ladder(),
            rates@ == rates_of(validators@),
            percentiles@.len() == i,
            percentile_x@.len() == i,
            percentile_y@.len() == i,
            forall|j: int|
                0 <= j < i ==> #[trigger] percentiles@[j] == ladder_step(
                    rates_of(validators@),
                    ladder()[j],
                ),
            forall|j: int| 0 <= j < i ==> #[trigger] percentile_x@[j] == ladder()[j],
            forall|j: int|
                0 <= j < i ==> #[trigger] percentile_y@[j] == nearest_rank(
                    rates_of(validators@),
                    ladder()[j] as nat,
                ),
        decreases 11 - i,
    {
        let p = steps[i];
        let value = calculate_percentile(&rates, p);
        percentiles.push(PercentileData { percentile: p, skip_rate_percent: value });
        percentile_x.push(p);
        percentile_y.push(value);
        i = i + 1;
    }
    assert(percentile_x@ =~= ladder());
    let distribution = SkipRateDistribution {
        buckets,
        percentiles,
        plot_data: DistributionPlotData {
            histogram_labels,
            histogram_values,
            percentile_x,
            percentile_y,
        },
    };
    proof {
        lemma_bucket_counts_add_up(distribution, validators@);
    }
    distribution
}

/// What a bucket says: label, bounds, count, share and slots.
pub open spec fn bucket_views(buckets: Seq<DistributionBucket>) -> Seq<
    (Seq<char>, Percent, Percent, usize, Percent, u64),
> {
    buckets.map_values(
        |b: DistributionBucket|
            (
                b.range_label@,
                b.min_percent,
                b.max_percent,
                b.validator_count,
                b.percentage_of_total,
                b.total_slots,
            ),
    )
}

/// What a distribution says: its buckets, its percentile ladder and its
/// plot arrays.
pub open spec fn distribution_view(distribution: SkipRateDistribution) -> (
    Seq<(Seq<char>, Percent, Percent, usize, Percent, u64)>,
    Seq<PercentileData>,
    Seq<Seq<char>>,
    Seq<usize>,
    Seq<u8>,
    Seq<Percent>,
) {
    (
        bucket_views(distribution.buckets@),
        distribution.percentiles@,
        texts_of(distribution.plot_data.histogram_labels@),
        distribution.plot_data.histogram_values@,
        distribution.plot_data.percentile_x@,
        distribution.plot_data.percentile_y@,
    )
}

/// The values of the percentile ladder never fall along the ladder, in the
/// distribution of any well-formed records.
pub proof fn lemma_ladder_ascends(
    distribution: SkipRateDistribution,
    records: Seq<ValidatorSkipRate>,
    i: int,
    j: int,
)
    requires
        is_distribution(distribution, ranked(records, false)),
        all_wf(records),
        0 <= i <= j < 11,
    ensures
        distribution.percentiles@[i].skip_rate_percent.micros
            <= distribution.percentiles@[j].skip_rate_percent.micros,
        distribution.plot_data.percentile_y@[i].micros
            <= distribution.plot_data.percentile_y@[j].micros,
        distribution.percentiles@[i].percentile == ladder()[i],
        distribution.plot_data.percentile_y@[i] == distribution.percentiles@[i].skip_rate_percent,
{
    if i < j {
        assert(ladder()[i] < ladder()[j]);
        lemma_percentiles_ascend(
            records,
            Percent { micros: 0 },
            ladder()[i] as nat,
            ladder()[j] as nat,
        );
    }
}

/// The distributions of records that say the same say the same: the
/// distribution depends on nothing but the records.
pub proof fn lemma_distribution_reproducible(
    one: Seq<ValidatorSkipRate>,
    first: SkipRateDistribution,
    two: Seq<ValidatorSkipRate>,
    second: SkipRateDistribution,
)
    requires
        is_distribution(first, one),
        is_distribution(second, two),
        record_views(one) == record_views(two),
    ensures
        distribution_view(first) == distribution_view(second),
{
    assert(one.len() == record_views(one).len());
    assert(two.len() == record_views(two).len());
    lemma_total_views(one, two, Group::All, Measure::Count);
    assert(first.percentiles@ =~= second.percentiles@);
    assert(first.plot_data.percentile_y@ =~= second.plot_data.percentile_y@);
    assert forall|k: int| 0 <= k < 9 implies bucket_views(first.buckets@)[k] == bucket_views(
        second.buckets@,
    )[k] && first.plot_data.histogram_values@[k] == second.plot_data.histogram_values@[k] by {
        lemma_total_views(one, two, Group::Bucket(k as u8), Measure::Count);
        lemma_total_views(one, two, Group::Bucket(k as u8), Measure::LeaderSlots);
        assert(is_bucket(first.buckets@[k], one, k));
        assert(is_bucket(second.buckets@[k], two, k));
    }
    assert(bucket_views(first.buckets@) =~= bucket_views(second.buckets@));
    assert(first.plot_data.histogram_values@ =~= second.plot_data.histogram_values@);
    assert(texts_of(first.plot_data.histogram_labels@) =~= texts_of(
        second.plot_data.histogram_labels@,
    ));
}

} // verus!
