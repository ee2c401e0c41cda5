//! The health assessment: score, status, dashboard cards and alerts.

use vstd::prelude::*;
use vstd::string::StringExecFns;
use crate::aggregate::{
    count_in, lemma_total_le_all, lemma_total_views, sum_over, total, Group, Measure,
};
use crate::percent::{
    fixed_text, lemma_ratio_micros_at_least, rate_above, rate_at_least, ratio_micros, Percent,
};
use crate::ranking::record_views;
use crate::statistics::totals_fit;
use crate::text::{decimal_string, decimal_text, push_decimal};
use crate::types::{
    exceeds_percent, reaches_percent, AlertCategory, AlertSeverity, DashboardMetrics, MetricCard,
    NetworkAlert, NetworkHealthSummary, NetworkStatus, SkipRateStatistics, TrendDirection,
    ValidatorSkipRate,
};

verus! {

/// The health score of statistics: up to 40 points for a network skip rate
/// below five percent, 30 points times the network efficiency, 30 points
/// times the share of validators that are not concerning; never above one
/// hundred.
pub open spec fn health_score_of(stats: SkipRateStatistics) -> Percent {
    let overall = stats.overall_skip_rate_percent.micros as int;
    let capped = if overall < 5_000_000 {
        overall
    } else {
        5_000_000
    };
    let skip_part = (5_000_000 - capped) * 8;
    let efficiency_part = stats.network_efficiency_percent.micros * 30 / 100;
    let validator_part = if stats.total_validators > stats.concerning_validators {
        (stats.total_validators - stats.concerning_validators) * 30_000_000
            / stats.total_validators as int
    } else {
        0
    };
    let sum = skip_part + efficiency_part + validator_part;
    Percent {
        micros: if sum > 100_000_000 {
            100_000_000
        } else {
            sum as u128
        },
    }
}

/// The status that a health score stands for.
pub open spec fn status_of(score: Percent) -> NetworkStatus {
    if score.micros >= 90_000_000 {
        NetworkStatus::Healthy
    } else if score.micros >= 75_000_000 {
        NetworkStatus::Warning
    } else if score.micros >= 50_000_000 {
        NetworkStatus::Degraded
    } else {
        NetworkStatus::Critical
    }
}

/// What an alert says, without the time at which it was raised.
pub open spec fn alert_views(alerts: Seq<NetworkAlert>) -> Seq<
    (AlertSeverity, Seq<char>, AlertCategory),
> {
    alerts.map_values(|a: NetworkAlert| (a.severity, a.message@, a.category))
}

/// The alert for a network skip rate above five percent.
pub open spec fn skip_rate_alerts(stats: SkipRateStatistics) -> Seq<
    (AlertSeverity, Seq<char>, AlertCategory),
> {
    if rate_above(stats.total_missed_slots as int, stats.total_leader_slots as int, 5) {
        seq![
            (
                AlertSeverity::Critical,
                "High network skip rate: "@ + fixed_text(
                    stats.overall_skip_rate_percent.micros as nat,
                    2,
                ) + "%"@,
                AlertCategory::SkipRate,
            ),
        ]
    } else {
        Seq::empty()
    }
}

/// The alert for more than twenty concerning validators, raised when they
/// hold more than two percent of all slots or more than ten of them are
/// significant; critical when they hold more than five percent.
pub open spec fn concerning_alerts(
    stats: SkipRateStatistics,
    records: Seq<ValidatorSkipRate>,
) -> Seq<(AlertSeverity, Seq<char>, AlertCategory)> {
    let slots = total(records, Group::Concerning, Measure::LeaderSlots) as int;
    let missed = total(records, Group::Concerning, Measure::MissedSlots);
    let significant = total(records, Group::SignificantConcerning, Measure::Count);
    let all_slots = stats.total_leader_slots as int;
    if stats.concerning_validators > 20 && (rate_above(slots, all_slots, 2) || significant > 10) {
        seq![
            (
                if rate_above(slots, all_slots, 5) {
                    AlertSeverity::Critical
                } else {
                    AlertSeverity::Warning
                },
                decimal_text(stats.concerning_validators as nat)
                    + " validators have concerning skip rates ("@ + decimal_text(significant)
                    + " significant validators, "@ + fixed_text(
                    ratio_micros(slots, all_slots) as nat,
                    1,
                ) + "% network impact, "@ + decimal_text(missed) + " total missed slots)"@,
                AlertCategory::ValidatorCount,
            ),
        ]
    } else {
        Seq::empty()
    }
}

/// The alert for a network efficiency below ninety-five percent.
pub open spec fn efficiency_alerts(stats: SkipRateStatistics) -> Seq<
    (AlertSeverity, Seq<char>, AlertCategory),
> {
    if !rate_at_least(stats.total_blocks_produced as int, stats.total_leader_slots as int, 95) {
        seq![
            (
                AlertSeverity::Warning,
                "Low network efficiency: "@ + fixed_text(
                    stats.network_efficiency_percent.micros as nat,
                    1,
                ) + "%"@,
                AlertCategory::NetworkEfficiency,
            ),
        ]
    } else {
        Seq::empty()
    }
}

/// The alert for validators with more than a thousand slots and a skip
/// rate above ten percent.
pub open spec fn high_impact_alerts(records: Seq<ValidatorSkipRate>) -> Seq<
    (AlertSeverity, Seq<char>, AlertCategory),
> {
    let count = total(records, Group::HighImpact, Measure::Count);
    let missed = total(records, Group::HighImpact, Measure::MissedSlots);
    if count > 0 {
        seq![
            (
                AlertSeverity::Critical,
                decimal_text(count) + " high-stake validators have >10% skip rates (missed "@
                    + decimal_text(missed) + " slots total)"@,
                AlertCategory::ValidatorCount,
            ),
        ]
    } else {
        Seq::empty()
    }
}

/// The alerts of one assessment, in the order in which they are raised.
pub open spec fn alerts_of(stats: SkipRateStatistics, records: Seq<ValidatorSkipRate>) -> Seq<
    (AlertSeverity, Seq<char>, AlertCategory),
> {
    skip_rate_alerts(stats) + concerning_alerts(stats, records) + efficiency_alerts(stats)
        + high_impact_alerts(records)
}

/// Whether `card` shows `value` in `color` under `subtitle`, without an
/// earlier value or a trend.
pub open spec fn card_shows(
    card: MetricCard,
    value: Seq<char>,
    color: Seq<char>,
    subtitle: Seq<char>,
) -> bool {
    &&& card.value@ == value
    &&& card.previous_value is None
    &&& card.trend == TrendDirection::Unknown
    &&& card.color@ == color
    &&& card.subtitle@ == subtitle
}

/// The colour of the skip-rate card: green below one percent, yellow below
/// three, red from there.
pub open spec fn skip_rate_color(stats: SkipRateStatistics) -> Seq<char> {
    let (m, s) = (stats.total_missed_slots as int, stats.total_leader_slots as int);
    if !rate_at_least(m, s, 1) {
        "#22c55e"@
    } else if !rate_at_least(m, s, 3) {
        "#eab308"@
    } else {
        "#ef4444"@
    }
}

/// The colour of the efficiency card: green above ninety-nine percent,
/// yellow above ninety-seven, red otherwise.
pub open spec fn efficiency_color(stats: SkipRateStatistics) -> Seq<char> {
    let (p, s) = (stats.total_blocks_produced as int, stats.total_leader_slots as int);
    if rate_above(p, s, 99) {
        "#22c55e"@
    } else if rate_above(p, s, 97) {
        "#eab308"@
    } else {
        "#ef4444"@
    }
}

/// The colour of the card of concerning validators: green for none, yellow
/// for fewer than ten, red from there.
pub open spec fn concerning_color(stats: SkipRateStatistics) -> Seq<char> {
    if stats.concerning_validators == 0 {
        "#22c55e"@
    } else if stats.concerning_validators < 10 {
        "#eab308"@
    } else {
        "#ef4444"@
    }
}

/// Whether `metrics` are the dashboard cards of the statistics.
pub open spec fn is_dashboard(metrics: DashboardMetrics, stats: SkipRateStatistics) -> bool {
    &&& card_shows(
        metrics.network_skip_rate,
        fixed_text(stats.overall_skip_rate_percent.micros as nat, 2) + "%"@,
        skip_rate_color(stats),
        "Network skip rate"@,
    )
    &&& card_shows(
        metrics.active_validators,
        decimal_text(stats.significant_validators as nat),
        "#22c55e"@,
        "Active validators"@,
    )
    &&& card_shows(
        metrics.network_efficiency,
        fixed_text(stats.network_efficiency_percent.micros as nat, 1) + "%"@,
        efficiency_color(stats),
        "Network efficiency"@,
    )
    &&& card_shows(
        metrics.concerning_validators,
        decimal_text(stats.concerning_validators as nat),
        concerning_color(stats),
        "Concerning validators"@,
    )
}

/// Whether `health` is the assessment of the statistics and records, made
/// at `timestamp`.
pub open spec fn is_health(
    health: NetworkHealthSummary,
    stats: SkipRateStatistics,
    records: Seq<ValidatorSkipRate>,
    timestamp: i64,
) -> bool {
    &&& health.health_score == health_score_of(stats)
    &&& health.status == status_of(health.health_score)
    &&& is_dashboard(health.key_metrics, stats)
    &&& alert_views(health.alerts@) == alerts_of(stats, records)
    &&& forall|i: int|
        0 <= i < health.alerts@.len() ==> (#[trigger] health.alerts@[i]).triggered_at == timestamp
}

/// The health score of statistics.
pub fn calculate_health_score(statistics: &SkipRateStatistics) -> (score: Percent)
    ensures
        score == health_score_of(*statistics),
        score.micros <= 100_000_000,
{
    let overall = statistics.overall_skip_rate_percent.micros;
    let capped: u128 = if overall < 5_000_000 {
        overall
    } else {
        5_000_000
    };
    let skip_part: u128 = (5_000_000 - capped) * 8;
    let efficiency = statistics.network_efficiency_percent.micros;
    let bounded: u128 = if efficiency < 400_000_000 {
        efficiency
    } else {
        400_000_000
    };
    let efficiency_part: u128 = bounded * 30 / 100;
    let total = statistics.total_validators;
    let concerning = statistics.concerning_validators;
    let validator_part: u128 = if total > concerning {
        let good = (total - concerning) as u128;
        assert(good * 30_000_000 / (total as int) <= 30_000_000) by (nonlinear_arith)
            requires
                0 <= good <= total,
                total > 0,
        ;
        good * 30_000_000 / (total as u128)
    } else {
        0
    };
    let sum: u128 = skip_part + efficiency_part + validator_part;
    if sum > 100_000_000 {
        Percent { micros: 100_000_000 }
    } else {
        Percent { micros: sum }
    }
}

/// The status that a health score stands for.
pub fn status_for(score: Percent) -> (status: NetworkStatus)
    ensures
        status == status_of(score),
{
    if score.micros >= 90_000_000 {
        NetworkStatus::Healthy
    } else if score.micros >= 75_000_000 {
        NetworkStatus::Warning
    } else if score.micros >= 50_000_000 {
        NetworkStatus::Degraded
    } else {
        NetworkStatus::Critical
    }
}

fn card(value: String, color: &str, subtitle: &str) -> (c: MetricCard)
    ensures
        card_shows(c, value@, color@, subtitle@),
{
    MetricCard {
        value,
        previous_value: None,
        trend: TrendDirection::Unknown,
        color: color.to_owned(),
        subtitle: subtitle.to_owned(),
    }
}

fn percent_label(value: Percent, decimals: u8) -> (s: String)
    requires
        decimals <= 6,
    ensures
        s@ == fixed_text(value.micros as nat, decimals as nat) + "%"@,
{
    let mut s = value.to_fixed(decimals);
    s.append("%");
    s
}

fn dashboard(statistics: &SkipRateStatistics) -> (metrics: DashboardMetrics)
    ensures
        is_dashboard(metrics, *statistics),
{
    let m = statistics.total_missed_slots;
    let p = statistics.total_blocks_produced;
    let s = statistics.total_leader_slots;
    let skip_color = if !reaches_percent(m, s, 1) {
        "#22c55e"
    } else if !reaches_percent(m, s, 3) {
        "#eab308"
    } else {
        "#ef4444"
    };
    let efficiency_color = if exceeds_percent(p, s, 99) {
        "#22c55e"
    } else if exceeds_percent(p, s, 97) {
        "#eab308"
    } else {
        "#ef4444"
    };
    let concerning_color = if statistics.concerning_validators == 0 {
        "#22c55e"
    } else if statistics.concerning_validators < 10 {
        "#eab308"
    } else {
        "#ef4444"
    };
    DashboardMetrics {
        network_skip_rate: card(
            percent_label(statistics.overall_skip_rate_percent, 2),
            skip_color,
            "Network skip rate",
        ),
        active_validators: card(
            decimal_string(statistics.significant_validators as u128),
            "#22c55e",
            "Active validators",
        ),
        network_efficiency: card(
            percent_label(statistics.network_efficiency_percent, 1),
            efficiency_color,
            "Network efficiency",
        ),
        concerning_validators: card(
            decimal_string(statistics.concerning_validators as u128),
            concerning_color,
            "Concerning validators",
        ),
    }
}

/// The health assessment of one fetch, from its statistics and its
/// records in any order. Every alert carries `timestamp`.
///
/// The score is read off the rates of the statistics. The conditions of
/// the alerts and the colours of the cards are decided exactly, on the
/// slot totals of the statistics and on the counts of the records, not on
/// the rounded rates; the texts show the rates.
pub fn calculate_network_health(
    statistics: &SkipRateStatistics,
    validators: &Vec<ValidatorSkipRate>,
    timestamp: i64,
) -> (health: NetworkHealthSummary)
    requires
        totals_fit(validators@),
    ensures
        is_health(health, *statistics, validators@, timestamp),
{
    let health_score = calculate_health_score(statistics);
    let status = status_for(health_score);
    let key_metrics = dashboard(statistics);
    let mut alerts: Vec<NetworkAlert> = Vec::new();
    let m = statistics.total_missed_slots;
    let p = statistics.total_blocks_produced;
    let s = statistics.total_leader_slots;
    assert(alert_views(alerts@) =~= Seq::empty());

    if exceeds_percent(m, s, 5) {
        let mut message = "High network skip rate: ".to_owned();
        statistics.overall_skip_rate_percent.push_fixed(&mut message, 2);
        message.append("%");
        alerts.push(
            NetworkAlert {
                severity: AlertSeverity::Critical,
                message,
                triggered_at: timestamp,
                category: AlertCategory::SkipRate,
            },
        );
    }
    assert(alert_views(alerts@) =~= skip_rate_alerts(*statistics));
    let ghost first = alerts@;

    if statistics.concerning_validators > 20 {
        proof {
            lemma_total_le_all(validators@, Group::Concerning, Measure::LeaderSlots);
        }
        let slots = sum_over(validators, Group::Concerning, Measure::LeaderSlots) as u64;
        let missed = sum_over(validators, Group::Concerning, Measure::MissedSlots);
        let significant = count_in(validators, Group::SignificantConcerning);
        if exceeds_percent(slots, s, 2) || significant > 10 {
            let severity = if exceeds_percent(slots, s, 5) {
                AlertSeverity::Critical
            } else {
                AlertSeverity::Warning
            };
            let mut message = String::new();
            push_decimal(&mut message, statistics.concerning_validators as u128);
            message.append(" validators have concerning skip rates (");
            push_decimal(&mut message, significant as u128);
            message.append(" significant validators, ");
            Percent::of(slots, s).push_fixed(&mut message, 1);
            message.append("% network impact, ");
            push_decimal(&mut message, missed);
            message.append(" total missed slots)");
            proof {
                let text = decimal_text(statistics.concerning_validators as nat)
                    + " validators have concerning skip rates ("@ + decimal_text(
                    significant as nat,
                ) + " significant validators, "@ + fixed_text(
                    ratio_micros(slots as int, s as int) as nat,
                    1,
                ) + "% network impact, "@ + decimal_text(missed as nat)
                    + " total missed slots)"@;
                assert(message@ =~= text);
            }
            alerts.push(
                NetworkAlert {
                    severity,
                    message,
                    triggered_at: timestamp,
                    category: AlertCategory::ValidatorCount,
                },
            );
        }
    }
    assert(alert_views(alerts@) =~= skip_rate_alerts(*statistics) + concerning_alerts(
        *statistics,
        validators@,
    ));

    if !reaches_percent(p, s, 95) {
        let mut message = "Low network efficiency: ".to_owned();
        statistics.network_efficiency_percent.push_fixed(&mut message, 1);
        message.append("%");
        alerts.push(
            NetworkAlert {
                severity: AlertSeverity::Warning,
                message,
                triggered_at: timestamp,
                category: AlertCategory::NetworkEfficiency,
            },
        );
    }
    assert(alert_views(alerts@) =~= skip_rate_alerts(*statistics) + concerning_alerts(
        *statistics,
        validators@,
    ) + efficiency_alerts(*statistics));

    let high_impact = count_in(validators, Group::HighImpact);
    if high_impact > 0 {
        let missed = sum_over(validators, Group::HighImpact, Measure::MissedSlots);
        let mut message = String::new();
        push_decimal(&mut message, high_impact as u128);
        message.append(" high-stake validators have >10% skip rates (missed ");
        push_decimal(&mut message, missed);
        message.append(" slots total)");
        proof {
            let text = decimal_text(high_impact as nat)
                + " high-stake validators have >10% skip rates (missed "@ + decimal_text(
                missed as nat,
            ) + " slots total)"@;
            assert(message@ =~= text);
        }
        alerts.push(
            NetworkAlert {
                severity: AlertSeverity::Critical,
                message,
                triggered_at: timestamp,
                category: AlertCategory::ValidatorCount,
            },
        );
    }
    assert(alert_views(alerts@) =~= alerts_of(*statistics, validators@));

    NetworkHealthSummary { health_score, status, key_metrics, alerts }
}

/// What a dashboard card says.
pub open spec fn card_view(card: MetricCard) -> (
    Seq<char>,
    Option<Seq<char>>,
    TrendDirection,
    Seq<char>,
    Seq<char>,
) {
    (
        card.value@,
        match card.previous_value {
            Some(text) => Some(text@),
            None => None,
        },
        card.trend,
        card.color@,
        card.subtitle@,
    )
}

/// What a health assessment says, without the times of its alerts.
pub open spec fn health_view(health: NetworkHealthSummary) -> (
    Percent,
    NetworkStatus,
    Seq<(Seq<char>, Option<Seq<char>>, TrendDirection, Seq<char>, Seq<char>)>,
    Seq<(AlertSeverity, Seq<char>, AlertCategory)>,
) {
    (
        health.health_score,
        health.status,
        seq![
            card_view(health.key_metrics.network_skip_rate),
            card_view(health.key_metrics.active_validators),
            card_view(health.key_metrics.network_efficiency),
            card_view(health.key_metrics.concerning_validators),
        ],
        alert_views(health.alerts@),
    )
}

/// Two assessments of the same statistics and of records that say the
/// same say the same, whatever the times at which they were made: the
/// same score, status, cards and alerts. No alert is carried over from one
/// assessment to the next.
pub proof fn lemma_health_reproducible(
    stats: SkipRateStatistics,
    one: Seq<ValidatorSkipRate>,
    first: NetworkHealthSummary,
    first_time: i64,
    two: Seq<ValidatorSkipRate>,
    second: NetworkHealthSummary,
    second_time: i64,
)
    requires
        is_health(first, stats, one, first_time),
        is_health(second, stats, two, second_time),
        record_views(one) == record_views(two),
    ensures
        health_view(first) == health_view(second),
{
    lemma_total_views(one, two, Group::Concerning, Measure::LeaderSlots);
    lemma_total_views(one, two, Group::Concerning, Measure::MissedSlots);
    lemma_total_views(one, two, Group::SignificantConcerning, Measure::Count);
    lemma_total_views(one, two, Group::HighImpact, Measure::Count);
    lemma_total_views(one, two, Group::HighImpact, Measure::MissedSlots);
    assert(alerts_of(stats, one) == alerts_of(stats, two));
    let a = first.key_metrics;
    let b = second.key_metrics;
    assert(card_view(a.network_skip_rate) == card_view(b.network_skip_rate));
    assert(card_view(a.active_validators) == card_view(b.active_validators));
    assert(card_view(a.network_efficiency) == card_view(b.network_efficiency));
    assert(card_view(a.concerning_validators) == card_view(b.concerning_validators));
}

/// What an assessment holds, whatever statistics and records it was made
/// of: a score of at most one hundred with the status of its band; at
/// most one alert for the skip rate, critical, and at most one for the
/// efficiency, a warning; one critical alert for high-stake validators
/// above ten percent exactly when there is such a validator.
pub proof fn lemma_health_alerts(
    health: NetworkHealthSummary,
    stats: SkipRateStatistics,
    records: Seq<ValidatorSkipRate>,
    timestamp: i64,
)
    requires
        is_health(health, stats, records, timestamp),
    ensures
        health.health_score.micros <= 100_000_000,
        health.status == NetworkStatus::Healthy <==> health.health_score.micros >= 90_000_000,
        health.status == NetworkStatus::Warning <==> 75_000_000 <= health.health_score.micros
            < 90_000_000,
        health.status == NetworkStatus::Degraded <==> 50_000_000 <= health.health_score.micros
            < 75_000_000,
        health.status == NetworkStatus::Critical <==> health.health_score.micros < 50_000_000,
        skip_rate_alerts(stats).len() == (if rate_above(
            stats.total_missed_slots as int,
            stats.total_leader_slots as int,
            5,
        ) {
            1nat
        } else {
            0nat
        }),
        efficiency_alerts(stats).len() == (if rate_at_least(
            stats.total_blocks_produced as int,
            stats.total_leader_slots as int,
            95,
        ) {
            0nat
        } else {
            1nat
        }),
        high_impact_alerts(records).len() == (if total(records, Group::HighImpact, Measure::Count)
            > 0 {
            1nat
        } else {
            0nat
        }),
        alert_views(health.alerts@).len() == skip_rate_alerts(stats).len() + concerning_alerts(
            stats,
            records,
        ).len() + efficiency_alerts(stats).len() + high_impact_alerts(records).len(),
        concerning_alerts(stats, records).len() <= 1,
        forall|i: int|
            0 <= i < health.alerts@.len() ==> (#[trigger] health.alerts@[i]).triggered_at
                == timestamp,
{
}

/// For statistics whose two rates are those of their own totals, the
/// alert conditions can be read off the rates: a network skip rate
/// reported above five percent raises the skip-rate alert, and the
/// efficiency alert is raised exactly when the efficiency is reported
/// below ninety-five percent.
pub proof fn lemma_alert_conditions_on_rates(stats: SkipRateStatistics)
    requires
        stats.overall_skip_rate_percent.micros == ratio_micros(
            stats.total_missed_slots as int,
            stats.total_leader_slots as int,
        ),
        stats.network_efficiency_percent.micros == ratio_micros(
            stats.total_blocks_produced as int,
            stats.total_leader_slots as int,
        ),
    ensures
        stats.overall_skip_rate_percent.micros > 5_000_000 ==> skip_rate_alerts(stats).len() == 1,
        skip_rate_alerts(stats).len() == 1 ==> stats.overall_skip_rate_percent.micros
            >= 5_000_000,
        efficiency_alerts(stats).len() == 1 <==> stats.network_efficiency_percent.micros
            < 95_000_000,
{
    lemma_ratio_micros_at_least(
        stats.total_missed_slots as int,
        stats.total_leader_slots as int,
        5,
    );
    lemma_ratio_micros_at_least(
        stats.total_blocks_produced as int,
        stats.total_leader_slots as int,
        95,
    );
    let (m, s) = (stats.total_missed_slots as int, stats.total_leader_slots as int);
    if s > 0 && stats.overall_skip_rate_percent.micros > 5_000_000 {
        let q = m * 100_000_000 / s;
        assert(100 * m > 5 * s) by (nonlinear_arith)
            requires
                q == m * 100_000_000 / s,
                q > 5_000_000,
                s > 0,
                m >= 0,
        ;
    }
}

} // verus!
