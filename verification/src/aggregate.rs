//! Sums and counts over groups of validator records.
//!
//! Every aggregate of the statistics is one [`total`]: a [`Measure`] added
//! up over the records of a [`Group`].

use vstd::prelude::*;
use crate::percent::{rate_above, rate_at_least, Percent};
use crate::ranking::{insert_ranked, overtakes, ranked, record_view, record_views};
use crate::types::{exceeds_percent, reaches_percent, ValidatorSkipRate};

verus! {

/// The groups of validators that the statistics speak of.
#[derive(Debug, Clone, Copy, PartialEq, Eq, Structural)]
pub enum Group {
    /// Every validator.
    All,
    /// Rate zero with at least one slot.
    Perfect,
    /// Rate above five percent.
    Concerning,
    /// Rate of one hundred percent.
    Offline,
    /// Fewer than ten slots.
    LowActivity,
    /// More than a thousand slots.
    HighStake,
    /// At least fifty slots.
    Significant,
    /// Rate above five percent with at least fifty slots.
    SignificantConcerning,
    /// Rate above ten percent with more than a thousand slots.
    HighImpact,
    /// Rate above zero and at most five percent.
    Moderate,
    /// The validators of one bucket of the distribution.
    Bucket(u8),
}

/// What is added up over a group.
#[derive(Debug, Clone, Copy, PartialEq, Eq, Structural)]
pub enum Measure {
    /// One for each validator.
    Count,
    /// Assigned leader slots.
    LeaderSlots,
    /// Produced blocks.
    BlocksProduced,
    /// Missed slots.
    MissedSlots,
    /// Reported skip rate in millionths of a percent.
    SkipRate,
}

/// Number of buckets of the distribution.
pub const BUCKETS: usize = 9;

/// The bucket of the distribution that a validator with these counts falls
/// into: 0 for rate zero, then [0,1) without zero, [1,2), [2,5), [5,10),
/// [10,25), [25,50), [50,100), and 8 for one hundred percent.
pub open spec fn bucket_of(missed: int, slots: int) -> int {
    if !rate_above(missed, slots, 0) {
        0
    } else if !rate_at_least(missed, slots, 1) {
        1
    } else if !rate_at_least(missed, slots, 2) {
        2
    } else if !rate_at_least(missed, slots, 5) {
        3
    } else if !rate_at_least(missed, slots, 10) {
        4
    } else if !rate_at_least(missed, slots, 25) {
        5
    } else if !rate_at_least(missed, slots, 50) {
        6
    } else if !rate_at_least(missed, slots, 100) {
        7
    } else {
        8
    }
}

/// Whether the validator belongs to the group.
pub open spec fn in_group(v: ValidatorSkipRate, group: Group) -> bool {
    let m = v.missed_slots as int;
    let s = v.leader_slots as int;
    match group {
        Group::All => true,
        Group::Perfect => v.spec_is_perfect(),
        Group::Concerning => v.spec_is_concerning(),
        Group::Offline => v.spec_is_offline(),
        Group::LowActivity => v.spec_is_low_activity(),
        Group::HighStake => v.spec_is_high_stake(),
        Group::Significant => v.spec_is_significant(),
        Group::SignificantConcerning => v.spec_is_concerning() && v.spec_is_significant(),
        Group::HighImpact => rate_above(m, s, 10) && s > 1000,
        Group::Moderate => rate_above(m, s, 0) && !rate_above(m, s, 5),
        Group::Bucket(k) => bucket_of(m, s) == k,
    }
}

/// What the validator contributes to a measure.
pub open spec fn measure_of(v: ValidatorSkipRate, measure: Measure) -> nat {
    match measure {
        Measure::Count => 1,
        Measure::LeaderSlots => v.leader_slots as nat,
        Measure::BlocksProduced => v.blocks_produced as nat,
        Measure::MissedSlots => v.missed_slots as nat,
        Measure::SkipRate => v.skip_rate_percent.micros as nat,
    }
}

/// What the validator adds to the total of a measure over a group.
pub open spec fn share(v: ValidatorSkipRate, group: Group, measure: Measure) -> nat {
    if in_group(v, group) {
        measure_of(v, measure)
    } else {
        0
    }
}

/// The measure added up over the records that belong to the group.
pub open spec fn total(records: Seq<ValidatorSkipRate>, group: Group, measure: Measure) -> nat
    decreases records.len(),
{
    if records.len() == 0 {
        0
    } else {
        total(records.drop_last(), group, measure) + share(records.last(), group, measure)
    }
}

/// The records that belong to the group, in their order.
pub open spec fn members(records: Seq<ValidatorSkipRate>, group: Group) -> Seq<ValidatorSkipRate>
    decreases records.len(),
{
    if records.len() == 0 {
        Seq::empty()
    } else if in_group(records.last(), group) {
        members(records.drop_last(), group).push(records.last())
    } else {
        members(records.drop_last(), group)
    }
}

/// The reported skip rates of the records, in their order.
pub open spec fn rates_of(records: Seq<ValidatorSkipRate>) -> Seq<Percent> {
    records.map_values(|v: ValidatorSkipRate| v.skip_rate_percent)
}

/// Whether every record is well formed.
pub open spec fn all_wf(records: Seq<ValidatorSkipRate>) -> bool {
    forall|i: int| 0 <= i < records.len() ==> (#[trigger] records[i]).wf()
}

/// The total over one more record.
pub proof fn lemma_total_step(
    records: Seq<ValidatorSkipRate>,
    i: int,
    group: Group,
    measure: Measure,
)
    requires
        0 <= i < records.len(),
    ensures
        total(records.take(i + 1), group, measure) == total(records.take(i), group, measure)
            + share(records[i], group, measure),
{
    assert(records.take(i + 1).drop_last() =~= records.take(i));
    assert(records.take(i + 1).last() == records[i]);
}

/// The members among one more record.
pub proof fn lemma_members_step(records: Seq<ValidatorSkipRate>, i: int, group: Group)
    requires
        0 <= i < records.len(),
    ensures
        members(records.take(i + 1), group) == (if in_group(records[i], group) {
            members(records.take(i), group).push(records[i])
        } else {
            members(records.take(i), group)
        }),
{
    assert(records.take(i + 1).drop_last() =~= records.take(i));
    assert(records.take(i + 1).last() == records[i]);
}

/// Every member of a group is one of the records and belongs to the group.
pub proof fn lemma_members_are_records(records: Seq<ValidatorSkipRate>, group: Group)
    ensures
        forall|i: int|
            0 <= i < members(records, group).len() ==> in_group(
                #[trigger] members(records, group)[i],
                group,
            ) && exists|k: int|
                0 <= k < records.len() && records[k] == members(records, group)[i],
    decreases records.len(),
{
    if records.len() > 0 {
        let shorter = records.drop_last();
        lemma_members_are_records(shorter, group);
        let inner = members(shorter, group);
        let out = members(records, group);
        assert forall|i: int| 0 <= i < out.len() implies in_group(#[trigger] out[i], group)
            && exists|k: int| 0 <= k < records.len() && records[k] == out[i] by {
            if i < inner.len() {
                assert(out[i] == inner[i]);
                let k = choose|k: int| 0 <= k < shorter.len() && shorter[k] == inner[i];
                assert(records[k] == shorter[k]);
            } else {
                assert(out[i] == records[records.len() - 1]);
            }
        }
    }
}

/// A total is bounded by the number of records times the largest share.
pub proof fn lemma_total_bound(
    records: Seq<ValidatorSkipRate>,
    group: Group,
    measure: Measure,
    bound: nat,
)
    requires
        forall|i: int| 0 <= i < records.len() ==> share(#[trigger] records[i], group, measure)
            <= bound,
    ensures
        total(records, group, measure) <= records.len() * bound,
    decreases records.len(),
{
    if records.len() > 0 {
        let shorter = records.drop_last();
        assert forall|i: int| 0 <= i < shorter.len() implies share(
            #[trigger] shorter[i],
            group,
            measure,
        ) <= bound by {
            assert(shorter[i] == records[i]);
        }
        lemma_total_bound(shorter, group, measure, bound);
        assert(share(records[records.len() - 1], group, measure) <= bound);
        assert(shorter.len() * bound + bound == records.len() * bound) by (nonlinear_arith)
            requires
                shorter.len() + 1 == records.len(),
        ;
    }
}

/// A total over a group never exceeds the total over all records.
pub proof fn lemma_total_le_all(records: Seq<ValidatorSkipRate>, group: Group, measure: Measure)
    ensures
        total(records, group, measure) <= total(records, Group::All, measure),
    decreases records.len(),
{
    if records.len() > 0 {
        lemma_total_le_all(records.drop_last(), group, measure);
    }
}

/// The missed slots of well-formed records add up to no more than their
/// assigned slots.
pub proof fn lemma_missed_le_slots(records: Seq<ValidatorSkipRate>, group: Group)
    requires
        all_wf(records),
    ensures
        total(records, group, Measure::MissedSlots) <= total(records, group, Measure::LeaderSlots),
    decreases records.len(),
{
    if records.len() > 0 {
        let shorter = records.drop_last();
        assert(all_wf(shorter)) by {
            assert forall|i: int| 0 <= i < shorter.len() implies (#[trigger] shorter[i]).wf() by {
                assert(shorter[i] == records[i]);
            }
        }
        lemma_missed_le_slots(shorter, group);
        assert(records[records.len() - 1].wf());
    }
}

/// Ranked insertion adds the record's share to every total.
pub proof fn lemma_total_insert_ranked(
    sorted: Seq<ValidatorSkipRate>,
    x: ValidatorSkipRate,
    descending: bool,
    group: Group,
    measure: Measure,
)
    ensures
        total(insert_ranked(sorted, x, descending), group, measure) == total(
            sorted,
            group,
            measure,
        ) + share(x, group, measure),
    decreases sorted.len(),
{
    let out = insert_ranked(sorted, x, descending);
    if sorted.len() == 0 {
        assert(out.drop_last() =~= Seq::<ValidatorSkipRate>::empty());
        assert(out.last() == x);
        assert(total(out.drop_last(), group, measure) == 0);
    } else if overtakes(x, sorted.last(), descending) {
        let inner = insert_ranked(sorted.drop_last(), x, descending);
        lemma_total_insert_ranked(sorted.drop_last(), x, descending, group, measure);
        assert(out == inner.push(sorted.last()));
        assert(out.drop_last() =~= inner);
        assert(out.last() == sorted.last());
    } else {
        assert(out == sorted.push(x));
        assert(out.drop_last() =~= sorted);
        assert(out.last() == x);
    }
}

/// Ranking changes no total: the ranked records are the given records in
/// another order.
pub proof fn lemma_total_ranked(
    records: Seq<ValidatorSkipRate>,
    descending: bool,
    group: Group,
    measure: Measure,
)
    ensures
        total(ranked(records, descending), group, measure) == total(records, group, measure),
    decreases records.len(),
{
    if records.len() > 0 {
        lemma_total_ranked(records.drop_last(), descending, group, measure);
        lemma_total_insert_ranked(
            ranked(records.drop_last(), descending),
            records.last(),
            descending,
            group,
            measure,
        );
    }
}

/// Totals, members and rates depend on what the records say alone.
pub proof fn lemma_total_views(
    one: Seq<ValidatorSkipRate>,
    two: Seq<ValidatorSkipRate>,
    group: Group,
    measure: Measure,
)
    requires
        record_views(one) == record_views(two),
    ensures
        total(one, group, measure) == total(two, group, measure),
        record_views(members(one, group)) == record_views(members(two, group)),
        rates_of(one) == rates_of(two),
        rates_of(members(one, group)) == rates_of(members(two, group)),
    decreases one.len(),
{
    assert(one.len() == record_views(one).len());
    assert(two.len() == record_views(two).len());
    if one.len() > 0 {
        assert(record_views(one)[one.len() - 1] == record_view(one.last()));
        assert(record_views(two)[two.len() - 1] == record_view(two.last()));
        assert(record_views(one.drop_last()) =~= record_views(one).drop_last());
        assert(record_views(two.drop_last()) =~= record_views(two).drop_last());
        lemma_total_views(one.drop_last(), two.drop_last(), group, measure);
        let inner_one = members(one.drop_last(), group);
        let inner_two = members(two.drop_last(), group);
        if in_group(one.last(), group) {
            assert(in_group(two.last(), group));
            assert(record_views(inner_one.push(one.last())) =~= record_views(inner_one).push(
                record_view(one.last()),
            ));
            assert(record_views(inner_two.push(two.last())) =~= record_views(inner_two).push(
                record_view(two.last()),
            ));
        } else {
            assert(!in_group(two.last(), group));
        }
    } else {
        assert(record_views(members(one, group)) =~= record_views(members(two, group)));
    }
    lemma_rates_of_views(one, two);
    lemma_rates_of_views(members(one, group), members(two, group));
}

/// The reported rates depend on what the records say alone.
pub proof fn lemma_rates_of_views(one: Seq<ValidatorSkipRate>, two: Seq<ValidatorSkipRate>)
    requires
        record_views(one) == record_views(two),
    ensures
        rates_of(one) == rates_of(two),
{
    assert(one.len() == record_views(one).len());
    assert(two.len() == record_views(two).len());
    assert forall|i: int| 0 <= i < one.len() implies rates_of(one)[i] == rates_of(two)[i] by {
        assert(record_views(one)[i] == record_view(one[i]));
        assert(record_views(two)[i] == record_view(two[i]));
    }
    assert(rates_of(one) =~= rates_of(two));
}

/// The bucket of the distribution that the validator falls into.
pub fn bucket_index(v: &ValidatorSkipRate) -> (k: u8)
    ensures
        k == bucket_of(v.missed_slots as int, v.leader_slots as int),
        k < 9,
{
    let m = v.missed_slots;
    let s = v.leader_slots;
    if !exceeds_percent(m, s, 0) {
        0
    } else if !reaches_percent(m, s, 1) {
        1
    } else if !reaches_percent(m, s, 2) {
        2
    } else if !reaches_percent(m, s, 5) {
        3
    } else if !reaches_percent(m, s, 10) {
        4
    } else if !reaches_percent(m, s, 25) {
        5
    } else if !reaches_percent(m, s, 50) {
        6
    } else if !reaches_percent(m, s, 100) {
        7
    } else {
        8
    }
}

/// Whether the validator belongs to the group.
pub fn belongs_to(v: &ValidatorSkipRate, group: Group) -> (r: bool)
    ensures
        r == in_group(*v, group),
{
    match group {
        Group::All => true,
        Group::Perfect => v.is_perfect(),
        Group::Concerning => v.is_concerning(),
        Group::Offline => v.is_offline(),
        Group::LowActivity => v.is_low_activity(),
        Group::HighStake => v.is_high_stake(),
        Group::Significant => v.is_significant(),
        Group::SignificantConcerning => v.is_concerning() && v.is_significant(),
        Group::HighImpact => exceeds_percent(v.missed_slots, v.leader_slots, 10) && v.leader_slots
            > 1000,
        Group::Moderate => exceeds_percent(v.missed_slots, v.leader_slots, 0) && !exceeds_percent(
            v.missed_slots,
            v.leader_slots,
            5,
        ),
        Group::Bucket(k) => bucket_index(v) == k,
    }
}

/// Whether every record is well formed: its missed slots and its reported
/// rate agree with its two counts.
pub fn all_well_formed(records: &Vec<ValidatorSkipRate>) -> (ok: bool)
    ensures
        ok == all_wf(records@),
{
    let n = records.len();
    let mut i: usize = 0;
    while i < n
        invariant
            n == records@.len(),
            i <= n,
            forall|j: int| 0 <= j < i ==> (#[trigger] records@[j]).wf(),
        decreases n - i,
    {
        let v = &records[i];
        let missed = if v.leader_slots >= v.blocks_produced {
            v.leader_slots - v.blocks_produced
        } else {
            0
        };
        if v.missed_slots != missed || v.skip_rate_percent.micros != Percent::of(
            missed,
            v.leader_slots,
        ).micros {
            assert(!records@[i as int].wf());
            return false;
        }
        i = i + 1;
    }
    true
}

/// Adds up a measure over the records that belong to a group.
pub fn sum_over(records: &Vec<ValidatorSkipRate>, group: Group, measure: Measure) -> (sum: u128)
    requires
        measure == Measure::SkipRate ==> all_wf(records@),
    ensures
        sum == total(records@, group, measure),
{
    let n = records.len();
    let mut sum: u128 = 0;
    let mut i: usize = 0;
    assert(records@.take(0) =~= Seq::<ValidatorSkipRate>::empty());
    while i < n
        invariant
            n == records@.len(),
            i <= n,
            measure == Measure::SkipRate ==> all_wf(records@),
            sum == total(records@.take(i as int), group, measure),
            sum <= i * 0xffff_ffff_ffff_ffff,
        decreases n - i,
    {
        let v = &records[i];
        proof {
            lemma_total_step(records@, i as int, group, measure);
            if measure == Measure::SkipRate {
                assert(records@[i as int].wf());
                crate::types::lemma_record_bounds(records@[i as int]);
            }
            assert((i + 1) * 0xffff_ffff_ffff_ffff <= 0xffff_ffff_ffff_ffff * 0xffff_ffff_ffff_ffff)
                by (nonlinear_arith)
                requires
                    i + 1 <= 0xffff_ffff_ffff_ffff,
            ;
        }
        if belongs_to(v, group) {
            let part: u128 = match measure {
                Measure::Count => 1,
                Measure::LeaderSlots => v.leader_slots as u128,
                Measure::BlocksProduced => v.blocks_produced as u128,
                Measure::MissedSlots => v.missed_slots as u128,
                Measure::SkipRate => v.skip_rate_percent.micros,
            };
            sum = sum + part;
        }
        i = i + 1;
    }
    assert(records@.take(n as int) =~= records@);
    sum
}

/// Counts the records that belong to a group.
pub fn count_in(records: &Vec<ValidatorSkipRate>, group: Group) -> (count: usize)
    ensures
        count == total(records@, group, Measure::Count),
        count <= records@.len(),
{
    proof {
        lemma_total_bound(records@, group, Measure::Count, 1);
        assert(records@.len() * 1 == records@.len()) by (nonlinear_arith);
    }
    let n = records.len();
    let sum = sum_over(records, group, Measure::Count);
    assert(sum <= n);
    sum as usize
}

/// Copies the records that belong to a group, in their order.
pub fn select(records: &Vec<ValidatorSkipRate>, group: Group) -> (chosen: Vec<ValidatorSkipRate>)
    ensures
        chosen@ == members(records@, group),
{
    let n = records.len();
    let mut chosen: Vec<ValidatorSkipRate> = Vec::new();
    let mut i: usize = 0;
    assert(records@.take(0) =~= Seq::<ValidatorSkipRate>::empty());
    while i < n
        invariant
            n == records@.len(),
            i <= n,
            chosen@ == members(records@.take(i as int), group),
        decreases n - i,
    {
        proof {
            lemma_members_step(records@, i as int, group);
        }
        if belongs_to(&records[i], group) {
            chosen.push(records[i].duplicate());
        }
        i = i + 1;
    }
    assert(records@.take(n as int) =~= records@);
    chosen
}

/// The reported skip rates of the records that belong to a group, in the
/// order of the records.
pub fn rates_in(records: &Vec<ValidatorSkipRate>, group: Group) -> (rates: Vec<Percent>)
    ensures
        rates@ == rates_of(members(records@, group)),
{
    let n = records.len();
    let mut rates: Vec<Percent> = Vec::new();
    let mut i: usize = 0;
    assert(records@.take(0) =~= Seq::<ValidatorSkipRate>::empty());
    assert(rates@ =~= rates_of(members(records@.take(0), group)));
    while i < n
        invariant
            n == records@.len(),
            i <= n,
            rates@ == rates_of(members(records@.take(i as int), group)),
        decreases n - i,
    {
        proof {
            lemma_members_step(records@, i as int, group);
        }
        let ghost before = members(records@.take(i as int), group);
        if belongs_to(&records[i], group) {
            rates.push(records[i].skip_rate_percent);
            assert(rates@ =~= rates_of(before.push(records@[i as int])));
        }
        i = i + 1;
    }
    assert(records@.take(n as int) =~= records@);
    rates
}

} // verus!
