//! The canonical order of validator records: ascending exact skip rate,
//! records of equal rate in the order they came.

use vstd::prelude::*;
use crate::types::ValidatorSkipRate;

verus! {

/// Whether the rate `m1 / s1` is strictly below the rate `m2 / s2`, decided
/// on the counts. A validator without slots has rate zero.
pub open spec fn rate_below(m1: int, s1: int, m2: int, s2: int) -> bool {
    if s2 <= 0 {
        false
    } else if s1 <= 0 {
        m2 > 0
    } else {
        m1 * s2 < m2 * s1
    }
}

/// Whether record `a` has a strictly lower skip rate than record `b`.
pub open spec fn lower_rate(a: ValidatorSkipRate, b: ValidatorSkipRate) -> bool {
    rate_below(
        a.missed_slots as int,
        a.leader_slots as int,
        b.missed_slots as int,
        b.leader_slots as int,
    )
}

/// Whether `a` has to stand before `b` whenever `b` came first: in
/// ascending order when its rate is lower, in descending order when it is
/// higher.
pub open spec fn overtakes(a: ValidatorSkipRate, b: ValidatorSkipRate, descending: bool) -> bool {
    if descending {
        lower_rate(b, a)
    } else {
        lower_rate(a, b)
    }
}

/// `sorted` with `x` put behind every record that it does not overtake.
pub open spec fn insert_ranked(
    sorted: Seq<ValidatorSkipRate>,
    x: ValidatorSkipRate,
    descending: bool,
) -> Seq<ValidatorSkipRate>
    decreases sorted.len(),
{
    if sorted.len() == 0 {
        seq![x]
    } else if overtakes(x, sorted.last(), descending) {
        insert_ranked(sorted.drop_last(), x, descending).push(sorted.last())
    } else {
        sorted.push(x)
    }
}

/// The records in order of skip rate, ascending or descending; records of
/// equal rate keep the order in which they came.
pub open spec fn ranked(records: Seq<ValidatorSkipRate>, descending: bool) -> Seq<
    ValidatorSkipRate,
>
    decreases records.len(),
{
    if records.len() == 0 {
        Seq::empty()
    } else {
        insert_ranked(ranked(records.drop_last(), descending), records.last(), descending)
    }
}

/// Whether no record overtakes one that stands before it.
pub open spec fn in_rank_order(records: Seq<ValidatorSkipRate>, descending: bool) -> bool {
    forall|i: int, j: int|
        0 <= i < j < records.len() ==> !overtakes(
            #[trigger] records[j],
            #[trigger] records[i],
            descending,
        )
}

/// "Not lower" is transitive: if neither `c` is lower than `b` nor `b`
/// lower than `a`, then `c` is not lower than `a`.
pub proof fn lemma_not_lower_transitive(
    a: ValidatorSkipRate,
    b: ValidatorSkipRate,
    c: ValidatorSkipRate,
)
    requires
        !lower_rate(b, a),
        !lower_rate(c, b),
    ensures
        !lower_rate(c, a),
{
    let (ma, sa) = (a.missed_slots as int, a.leader_slots as int);
    let (mb, sb) = (b.missed_slots as int, b.leader_slots as int);
    let (mc, sc) = (c.missed_slots as int, c.leader_slots as int);
    if sa > 0 && sc > 0 {
        if sb > 0 {
            assert(ma * sc <= mc * sa) by (nonlinear_arith)
                requires
                    ma * sb <= mb * sa,
                    mb * sc <= mc * sb,
                    sa > 0,
                    sb > 0,
                    sc > 0,
                    ma >= 0,
                    mb >= 0,
                    mc >= 0,
            ;
        } else {
            // b has rate zero, so a has none missed
            assert(ma == 0);
            assert(ma * sc <= mc * sa) by (nonlinear_arith)
                requires
                    ma == 0,
                    mc >= 0,
                    sa > 0,
            ;
        }
    } else if sa > 0 {
        // c has rate zero, so has b, so has a
        if sb > 0 {
            assert(mb == 0);
            assert(ma == 0) by (nonlinear_arith)
                requires
                    ma * sb <= mb * sa,
                    mb == 0,
                    sb > 0,
                    ma >= 0,
            ;
        }
    }
}

/// Inserting keeps the length, keeps what was there in its order and adds
/// `x`.
pub proof fn lemma_insert_ranked_len(
    sorted: Seq<ValidatorSkipRate>,
    x: ValidatorSkipRate,
    descending: bool,
)
    ensures
        insert_ranked(sorted, x, descending).len() == sorted.len() + 1,
    decreases sorted.len(),
{
    if sorted.len() > 0 && overtakes(x, sorted.last(), descending) {
        lemma_insert_ranked_len(sorted.drop_last(), x, descending);
    }
}

/// Ranking keeps the number of records.
pub proof fn lemma_ranked_len(records: Seq<ValidatorSkipRate>, descending: bool)
    ensures
        ranked(records, descending).len() == records.len(),
    decreases records.len(),
{
    if records.len() > 0 {
        lemma_ranked_len(records.drop_last(), descending);
        lemma_insert_ranked_len(
            ranked(records.drop_last(), descending),
            records.last(),
            descending,
        );
    }
}

/// Where `x` goes: behind position `at - 1`, which it does not overtake,
/// and before everything from `at` on, which it overtakes.
pub proof fn lemma_insert_ranked_at(
    sorted: Seq<ValidatorSkipRate>,
    x: ValidatorSkipRate,
    descending: bool,
    at: int,
)
    requires
        0 <= at <= sorted.len(),
        forall|j: int| at <= j < sorted.len() ==> overtakes(x, #[trigger] sorted[j], descending),
        at > 0 ==> !overtakes(x, sorted[at - 1], descending),
    ensures
        insert_ranked(sorted, x, descending) == sorted.insert(at, x),
    decreases sorted.len() - at,
{
    if sorted.len() == 0 {
        assert(sorted.insert(at, x) =~= seq![x]);
    } else if at == sorted.len() {
        assert(sorted.insert(at, x) =~= sorted.push(x));
    } else {
        assert(overtakes(x, sorted[sorted.len() - 1], descending));
        let shorter = sorted.drop_last();
        assert forall|j: int| at <= j < shorter.len() implies overtakes(
            x,
            #[trigger] shorter[j],
            descending,
        ) by {
            assert(shorter[j] == sorted[j]);
        }
        if at > 0 {
            assert(shorter[at - 1] == sorted[at - 1]);
        }
        lemma_insert_ranked_at(shorter, x, descending, at);
        assert(shorter.insert(at, x).push(sorted.last()) =~= sorted.insert(at, x));
    }
}

/// Inserting into rank order gives rank order.
pub proof fn lemma_insert_ranked_order(
    sorted: Seq<ValidatorSkipRate>,
    x: ValidatorSkipRate,
    descending: bool,
)
    requires
        in_rank_order(sorted, descending),
    ensures
        in_rank_order(insert_ranked(sorted, x, descending), descending),
    decreases sorted.len(),
{
    let out = insert_ranked(sorted, x, descending);
    lemma_insert_ranked_len(sorted, x, descending);
    if sorted.len() == 0 {
    } else if overtakes(x, sorted.last(), descending) {
        let shorter = sorted.drop_last();
        let last = sorted.last();
        assert(in_rank_order(shorter, descending)) by {
            assert forall|i: int, j: int| 0 <= i < j < shorter.len() implies !overtakes(
                #[trigger] shorter[j],
                #[trigger] shorter[i],
                descending,
            ) by {
                assert(shorter[i] == sorted[i]);
                assert(shorter[j] == sorted[j]);
            }
        }
        lemma_insert_ranked_order(shorter, x, descending);
        let inner = insert_ranked(shorter, x, descending);
        lemma_insert_ranked_len(shorter, x, descending);
        lemma_insert_ranked_members(shorter, x, descending);
        assert(out == inner.push(last));
        assert forall|i: int, j: int| 0 <= i < j < out.len() implies !overtakes(
            #[trigger] out[j],
            #[trigger] out[i],
            descending,
        ) by {
            if j < inner.len() {
                assert(out[i] == inner[i]);
                assert(out[j] == inner[j]);
            } else {
                assert(out[j] == last);
                assert(out[i] == inner[i]);
                if inner[i] == x {
                    // x overtakes last, so last does not overtake x
                    lemma_overtakes_asymmetric(x, last, descending);
                } else {
                    let k = choose|k: int| 0 <= k < shorter.len() && shorter[k] == inner[i];
                    assert(shorter[k] == sorted[k]);
                    assert(sorted[sorted.len() - 1] == last);
                    assert(!overtakes(sorted[sorted.len() - 1], sorted[k], descending));
                }
            }
        }
    } else {
        assert(out == sorted.push(x));
        assert forall|i: int, j: int| 0 <= i < j < out.len() implies !overtakes(
            #[trigger] out[j],
            #[trigger] out[i],
            descending,
        ) by {
            if j < sorted.len() {
                assert(out[i] == sorted[i]);
                assert(out[j] == sorted[j]);
            } else {
                assert(out[j] == x);
                assert(out[i] == sorted[i]);
                let last = sorted[sorted.len() - 1];
                if i < sorted.len() - 1 {
                    assert(!overtakes(last, sorted[i], descending));
                    if descending {
                        lemma_not_lower_transitive(x, last, sorted[i]);
                    } else {
                        lemma_not_lower_transitive(sorted[i], last, x);
                    }
                }
            }
        }
    }
}

/// Two records cannot overtake each other.
pub proof fn lemma_overtakes_asymmetric(
    a: ValidatorSkipRate,
    b: ValidatorSkipRate,
    descending: bool,
)
    ensures
        overtakes(a, b, descending) ==> !overtakes(b, a, descending),
{
    let (ma, sa) = (a.missed_slots as int, a.leader_slots as int);
    let (mb, sb) = (b.missed_slots as int, b.leader_slots as int);
    if sa > 0 && sb > 0 {
        assert(!(ma * sb < mb * sa && mb * sa < ma * sb));
    }
}

/// Every member of the result of an insertion is `x` or was there before.
pub proof fn lemma_insert_ranked_members(
    sorted: Seq<ValidatorSkipRate>,
    x: ValidatorSkipRate,
    descending: bool,
)
    ensures
        forall|i: int|
            #![trigger insert_ranked(sorted, x, descending)[i]]
            0 <= i < sorted.len() + 1 ==> insert_ranked(sorted, x, descending)[i] == x || exists|
                k: int,
            |
                0 <= k < sorted.len() && sorted[k] == insert_ranked(sorted, x, descending)[i],
    decreases sorted.len(),
{
    let out = insert_ranked(sorted, x, descending);
    lemma_insert_ranked_len(sorted, x, descending);
    if sorted.len() == 0 {
    } else if overtakes(x, sorted.last(), descending) {
        let shorter = sorted.drop_last();
        lemma_insert_ranked_members(shorter, x, descending);
        lemma_insert_ranked_len(shorter, x, descending);
        let inner = insert_ranked(shorter, x, descending);
        assert forall|i: int| 0 <= i < sorted.len() + 1 implies (#[trigger] out[i]) == x || exists|
            k: int,
        |
            0 <= k < sorted.len() && sorted[k] == out[i] by {
            if i < inner.len() {
                assert(out[i] == inner[i]);
                if inner[i] != x {
                    let k = choose|k: int| 0 <= k < shorter.len() && shorter[k] == inner[i];
                    assert(sorted[k] == shorter[k]);
                }
            } else {
                assert(sorted[sorted.len() - 1] == out[i]);
            }
        }
    } else {
        assert forall|i: int| 0 <= i < sorted.len() + 1 implies (#[trigger] out[i]) == x || exists|
            k: int,
        |
            0 <= k < sorted.len() && sorted[k] == out[i] by {
            if i < sorted.len() {
                assert(sorted[i] == out[i]);
            }
        }
    }
}

/// Ranked records stand in rank order: none has a lower rate than one
/// before it, or a higher one when the order descends.
pub proof fn lemma_ranked_in_order(records: Seq<ValidatorSkipRate>, descending: bool)
    ensures
        in_rank_order(ranked(records, descending), descending),
        ranked(records, descending).len() == records.len(),
    decreases records.len(),
{
    lemma_ranked_len(records, descending);
    if records.len() > 0 {
        let shorter = records.drop_last();
        lemma_ranked_in_order(shorter, descending);
        lemma_insert_ranked_order(ranked(shorter, descending), records.last(), descending);
    }
}

/// Records that already stand in rank order are left as they are: ranking
/// never reorders records of equal rate.
pub proof fn lemma_ranked_of_ordered(records: Seq<ValidatorSkipRate>, descending: bool)
    requires
        in_rank_order(records, descending),
    ensures
        ranked(records, descending) == records,
    decreases records.len(),
{
    if records.len() > 0 {
        let shorter = records.drop_last();
        assert(in_rank_order(shorter, descending)) by {
            assert forall|i: int, j: int| 0 <= i < j < shorter.len() implies !overtakes(
                #[trigger] shorter[j],
                #[trigger] shorter[i],
                descending,
            ) by {
                assert(shorter[i] == records[i]);
                assert(shorter[j] == records[j]);
            }
        }
        lemma_ranked_of_ordered(shorter, descending);
        if shorter.len() > 0 {
            assert(shorter.last() == records[records.len() - 2]);
            assert(records.last() == records[records.len() - 1]);
            assert(!overtakes(records[records.len() - 1], records[records.len() - 2], descending));
        } else {
            assert(insert_ranked(shorter, records.last(), descending) =~= seq![records.last()]);
        }
        assert(shorter.push(records.last()) =~= records);
    } else {
        assert(ranked(records, descending) =~= records);
    }
}

/// What a record says: the text of its identity and its numbers.
pub open spec fn record_view(v: ValidatorSkipRate) -> (Seq<char>, u64, u64, u64, u128) {
    (v.pubkey@, v.leader_slots, v.blocks_produced, v.missed_slots, v.skip_rate_percent.micros)
}

/// What the records say, in their order.
pub open spec fn record_views(records: Seq<ValidatorSkipRate>) -> Seq<
    (Seq<char>, u64, u64, u64, u128),
> {
    records.map_values(|v: ValidatorSkipRate| record_view(v))
}

/// Where a record is inserted depends on what the records say alone.
pub proof fn lemma_insert_ranked_views(
    one: Seq<ValidatorSkipRate>,
    x: ValidatorSkipRate,
    two: Seq<ValidatorSkipRate>,
    y: ValidatorSkipRate,
    descending: bool,
)
    requires
        record_views(one) == record_views(two),
        record_view(x) == record_view(y),
    ensures
        record_views(insert_ranked(one, x, descending)) == record_views(
            insert_ranked(two, y, descending),
        ),
    decreases one.len(),
{
    assert(one.len() == record_views(one).len());
    assert(two.len() == record_views(two).len());
    let a = insert_ranked(one, x, descending);
    let b = insert_ranked(two, y, descending);
    if one.len() == 0 {
        assert(record_views(a) =~= record_views(b));
    } else {
        assert(record_views(one)[one.len() - 1] == record_view(one.last()));
        assert(record_views(two)[two.len() - 1] == record_view(two.last()));
        if overtakes(x, one.last(), descending) {
            assert(overtakes(y, two.last(), descending));
            assert(record_views(one.drop_last()) =~= record_views(one).drop_last());
            assert(record_views(two.drop_last()) =~= record_views(two).drop_last());
            lemma_insert_ranked_views(one.drop_last(), x, two.drop_last(), y, descending);
            let inner_a = insert_ranked(one.drop_last(), x, descending);
            let inner_b = insert_ranked(two.drop_last(), y, descending);
            assert(record_views(inner_a.push(one.last())) =~= record_views(inner_a).push(
                record_view(one.last()),
            ));
            assert(record_views(inner_b.push(two.last())) =~= record_views(inner_b).push(
                record_view(two.last()),
            ));
        } else {
            assert(!overtakes(y, two.last(), descending));
            assert(record_views(one.push(x)) =~= record_views(one).push(record_view(x)));
            assert(record_views(two.push(y)) =~= record_views(two).push(record_view(y)));
        }
    }
}

/// The rank order of records depends on what the records say alone.
pub proof fn lemma_ranked_views(
    one: Seq<ValidatorSkipRate>,
    two: Seq<ValidatorSkipRate>,
    descending: bool,
)
    requires
        record_views(one) == record_views(two),
    ensures
        record_views(ranked(one, descending)) == record_views(ranked(two, descending)),
    decreases one.len(),
{
    assert(one.len() == record_views(one).len());
    assert(two.len() == record_views(two).len());
    if one.len() == 0 {
        assert(record_views(ranked(one, descending)) =~= record_views(ranked(two, descending)));
    } else {
        assert(record_views(one)[one.len() - 1] == record_view(one.last()));
        assert(record_views(two)[two.len() - 1] == record_view(two.last()));
        assert(record_views(one.drop_last()) =~= record_views(one).drop_last());
        assert(record_views(two.drop_last()) =~= record_views(two).drop_last());
        lemma_ranked_views(one.drop_last(), two.drop_last(), descending);
        lemma_insert_ranked_views(
            ranked(one.drop_last(), descending),
            one.last(),
            ranked(two.drop_last(), descending),
            two.last(),
            descending,
        );
    }
}

/// Whether two records have the same skip rate.
pub open spec fn same_rate(a: ValidatorSkipRate, b: ValidatorSkipRate) -> bool {
    !lower_rate(a, b) && !lower_rate(b, a)
}

/// The records that have the same skip rate as `x`, in their order.
pub open spec fn peers(records: Seq<ValidatorSkipRate>, x: ValidatorSkipRate) -> Seq<
    ValidatorSkipRate,
>
    decreases records.len(),
{
    if records.len() == 0 {
        Seq::empty()
    } else if same_rate(records.last(), x) {
        peers(records.drop_last(), x).push(records.last())
    } else {
        peers(records.drop_last(), x)
    }
}

/// Two records with the same rate as a third have the same rate.
pub proof fn lemma_same_rate_transitive(
    a: ValidatorSkipRate,
    b: ValidatorSkipRate,
    c: ValidatorSkipRate,
)
    requires
        same_rate(a, b),
        same_rate(b, c),
    ensures
        same_rate(a, c),
{
    let (ma, sa) = (a.missed_slots as int, a.leader_slots as int);
    let (mb, sb) = (b.missed_slots as int, b.leader_slots as int);
    let (mc, sc) = (c.missed_slots as int, c.leader_slots as int);
    if sa > 0 && sc > 0 {
        if sb > 0 {
            assert(ma * sc == mc * sa) by (nonlinear_arith)
                requires
                    ma * sb == mb * sa,
                    mb * sc == mc * sb,
                    sa > 0,
                    sb > 0,
                    sc > 0,
            ;
        } else {
            assert(ma == 0 && mc == 0);
            assert(ma * sc == mc * sa) by (nonlinear_arith)
                requires
                    ma == 0,
                    mc == 0,
            ;
        }
    } else if sa > 0 {
        // c has rate zero, so has b, so has a
        if sb > 0 {
            assert(mb == 0);
            assert(ma == 0) by (nonlinear_arith)
                requires
                    ma * sb == mb * sa,
                    mb == 0,
                    sb > 0,
            ;
        }
    } else if sc > 0 {
        if sb > 0 {
            assert(mb == 0);
            assert(mc == 0) by (nonlinear_arith)
                requires
                    mb * sc == mc * sb,
                    mb == 0,
                    sb > 0,
            ;
        }
    }
}

/// An insertion puts the record behind its peers and leaves the order of
/// all peers as it is.
pub proof fn lemma_insert_ranked_peers(
    sorted: Seq<ValidatorSkipRate>,
    y: ValidatorSkipRate,
    descending: bool,
    x: ValidatorSkipRate,
)
    ensures
        peers(insert_ranked(sorted, y, descending), x) == (if same_rate(y, x) {
            peers(sorted, x).push(y)
        } else {
            peers(sorted, x)
        }),
    decreases sorted.len(),
{
    let out = insert_ranked(sorted, y, descending);
    if sorted.len() == 0 {
        assert(out.drop_last() =~= Seq::<ValidatorSkipRate>::empty());
        assert(out.last() == y);
        assert(peers(out.drop_last(), x) =~= Seq::<ValidatorSkipRate>::empty());
        assert(peers(sorted, x) =~= Seq::<ValidatorSkipRate>::empty());
    } else if overtakes(y, sorted.last(), descending) {
        let shorter = sorted.drop_last();
        let last = sorted.last();
        let inner = insert_ranked(shorter, y, descending);
        lemma_insert_ranked_peers(shorter, y, descending, x);
        assert(out == inner.push(last));
        assert(out.drop_last() =~= inner);
        assert(out.last() == last);
        if same_rate(y, x) && same_rate(last, x) {
            lemma_same_rate_transitive(y, x, last);
        }
    } else {
        assert(out == sorted.push(y));
        assert(out.drop_last() =~= sorted);
        assert(out.last() == y);
    }
}

/// Ranking is stable: records of the same skip rate stand in the ranked
/// sequence in the order in which they came.
pub proof fn lemma_ranked_is_stable(
    records: Seq<ValidatorSkipRate>,
    descending: bool,
    x: ValidatorSkipRate,
)
    ensures
        peers(ranked(records, descending), x) == peers(records, x),
    decreases records.len(),
{
    if records.len() > 0 {
        lemma_ranked_is_stable(records.drop_last(), descending, x);
        lemma_insert_ranked_peers(
            ranked(records.drop_last(), descending),
            records.last(),
            descending,
            x,
        );
    }
}

/// An insertion adds the record and leaves the others as they are, each
/// as often as before.
pub proof fn lemma_insert_ranked_multiset(
    sorted: Seq<ValidatorSkipRate>,
    x: ValidatorSkipRate,
    descending: bool,
)
    ensures
        insert_ranked(sorted, x, descending).to_multiset() == sorted.to_multiset().insert(x),
    decreases sorted.len(),
{
    broadcast use vstd::seq_lib::to_multiset_build;

    if sorted.len() == 0 {
        assert(sorted =~= Seq::<ValidatorSkipRate>::empty());
        assert(seq![x] =~= sorted.push(x));
    } else if overtakes(x, sorted.last(), descending) {
        let shorter = sorted.drop_last();
        lemma_insert_ranked_multiset(shorter, x, descending);
        assert(shorter.push(sorted.last()) =~= sorted);
        assert(shorter.to_multiset().insert(x).insert(sorted.last()) =~= shorter.to_multiset().insert(
            sorted.last(),
        ).insert(x));
    }
}

/// The ranked records are the given records in another order: every
/// record occurs as often as before.
pub proof fn lemma_ranked_is_permutation(records: Seq<ValidatorSkipRate>, descending: bool)
    ensures
        ranked(records, descending).to_multiset() == records.to_multiset(),
    decreases records.len(),
{
    broadcast use vstd::seq_lib::to_multiset_build;

    if records.len() > 0 {
        let shorter = records.drop_last();
        lemma_ranked_is_permutation(shorter, descending);
        lemma_insert_ranked_multiset(ranked(shorter, descending), records.last(), descending);
        assert(shorter.push(records.last()) =~= records);
    } else {
        assert(ranked(records, descending) =~= records);
    }
}

/// Ranking well-formed records gives well-formed records.
pub proof fn lemma_ranked_wf(records: Seq<ValidatorSkipRate>, descending: bool)
    requires
        forall|i: int| 0 <= i < records.len() ==> (#[trigger] records[i]).wf(),
    ensures
        forall|i: int|
            0 <= i < ranked(records, descending).len() ==> (#[trigger] ranked(
                records,
                descending,
            )[i]).wf(),
    decreases records.len(),
{
    if records.len() > 0 {
        let shorter = records.drop_last();
        assert forall|i: int| 0 <= i < shorter.len() implies (#[trigger] shorter[i]).wf() by {
            assert(shorter[i] == records[i]);
        }
        lemma_ranked_wf(shorter, descending);
        let inner = ranked(shorter, descending);
        lemma_insert_ranked_members(inner, records.last(), descending);
        lemma_insert_ranked_len(inner, records.last(), descending);
        let out = ranked(records, descending);
        assert forall|i: int| 0 <= i < out.len() implies (#[trigger] out[i]).wf() by {
            if out[i] != records.last() {
                let k = choose|k: int| 0 <= k < inner.len() && inner[k] == out[i];
                assert(inner[k].wf());
            } else {
                assert(records.last() == records[records.len() - 1]);
            }
        }
    }
}

/// Whether record `a` has a strictly lower skip rate than record `b`.
pub fn has_lower_rate(a: &ValidatorSkipRate, b: &ValidatorSkipRate) -> (r: bool)
    ensures
        r == lower_rate(*a, *b),
{
    if b.leader_slots == 0 {
        false
    } else if a.leader_slots == 0 {
        b.missed_slots > 0
    } else {
        assert(a.missed_slots * b.leader_slots <= 0xffff_ffff_ffff_ffff * 0xffff_ffff_ffff_ffff)
            by (nonlinear_arith)
            requires
                a.missed_slots <= 0xffff_ffff_ffff_ffff,
                b.leader_slots <= 0xffff_ffff_ffff_ffff,
        ;
        assert(b.missed_slots * a.leader_slots <= 0xffff_ffff_ffff_ffff * 0xffff_ffff_ffff_ffff)
            by (nonlinear_arith)
            requires
                b.missed_slots <= 0xffff_ffff_ffff_ffff,
                a.leader_slots <= 0xffff_ffff_ffff_ffff,
        ;
        (a.missed_slots as u128) * (b.leader_slots as u128) < (b.missed_slots as u128) * (
        a.leader_slots as u128)
    }
}

/// Whether `a` has to stand before `b` whenever `b` came first.
pub fn stands_before(a: &ValidatorSkipRate, b: &ValidatorSkipRate, descending: bool) -> (r: bool)
    ensures
        r == overtakes(*a, *b, descending),
{
    if descending {
        has_lower_rate(b, a)
    } else {
        has_lower_rate(a, b)
    }
}

/// Copies the records into rank order: ascending or descending skip rate,
/// records of equal rate in the order given.
pub fn sort_by_skip_rate(records: &Vec<ValidatorSkipRate>, descending: bool) -> (sorted: Vec<
    ValidatorSkipRate,
>)
    ensures
        sorted@ == ranked(records@, descending),
        sorted@.len() == records@.len(),
{
    let mut sorted: Vec<ValidatorSkipRate> = Vec::new();
    let n = records.len();
    let mut i: usize = 0;
    assert(records@.take(0) =~= Seq::<ValidatorSkipRate>::empty());
    while i < n
        invariant
            n == records@.len(),
            i <= n,
            sorted@ == ranked(records@.take(i as int), descending),
            sorted@.len() == i,
        decreases n - i,
    {
        let x = records[i].duplicate();
        let mut at: usize = sorted.len();
        while at > 0 && stands_before(&x, &sorted[at - 1], descending)
            invariant
                at <= sorted@.len(),
                forall|j: int|
                    at <= j < sorted@.len() ==> overtakes(x, #[trigger] sorted@[j], descending),
            decreases at,
        {
            at = at - 1;
        }
        proof {
            lemma_insert_ranked_at(sorted@, x, descending, at as int);
            assert(records@.take(i + 1).drop_last() =~= records@.take(i as int));
            assert(records@.take(i + 1).last() == records@[i as int]);
        }
        sorted.insert(at, x);
        i = i + 1;
    }
    assert(records@.take(n as int) =~= records@);
    sorted
}

} // verus!
