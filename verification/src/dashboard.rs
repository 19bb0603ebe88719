//! The rules behind the dashboard: rolling quota windows and their
//! forecast, the monthly projection and its risk level, daily-budget alerts,
//! and the buckets of the usage chart.

use vstd::prelude::*;

use crate::json::strings_view;
use crate::text::{concat, format_padded, padded_decimal};
use crate::tokens::{clamp_i64, sat_add, sat_mul, sat_sub, zero_totals, TokenTotals};

verus! {

/// `a / b` rounded toward zero, as Rust's `/` on `i64` (`b > 0`).
pub open spec fn trunc_div(a: int, b: int) -> int {
    if a >= 0 { a / b } else { -((-a) / b) }
}

/// `a / b` for `i64`, rounding toward zero.
pub fn div_toward_zero(a: i64, b: i64) -> (q: i64)
    requires
        b > 0,
    ensures
        q == trunc_div(a as int, b as int),
{
    let wide_a: i128 = a as i128;
    let wide_b: i128 = b as i128;
    if wide_a >= 0 {
        (wide_a / wide_b) as i64
    } else {
        let magnitude: i128 = -wide_a;
        proof {
            assert(magnitude / wide_b <= magnitude) by (nonlinear_arith)
                requires magnitude >= 0, wide_b > 0;
        }
        (-(magnitude / wide_b)) as i64
    }
}

/// How a rolling quota window is forecast to end.
#[derive(Clone, Copy, Debug, PartialEq, Eq, Structural)]
pub enum ForecastStatus {
    /// No limit is set.
    Unconfigured,
    /// The projection reaches the limit.
    Danger,
    /// The projection or the usage so far reaches 80% of the limit.
    Warning,
    Safe,
}

impl ForecastStatus {
    /// The status as the dashboard names it.
    pub fn as_str(self) -> (s: &'static str)
        ensures
            s@ == forecast_name(self),
    {
        match self {
            ForecastStatus::Unconfigured => "unconfigured",
            ForecastStatus::Danger => "danger",
            ForecastStatus::Warning => "warning",
            ForecastStatus::Safe => "safe",
        }
    }
}

/// The name of a forecast status.
pub open spec fn forecast_name(s: ForecastStatus) -> Seq<char> {
    match s {
        ForecastStatus::Unconfigured => "unconfigured"@,
        ForecastStatus::Danger => "danger"@,
        ForecastStatus::Warning => "warning"@,
        ForecastStatus::Safe => "safe"@,
    }
}

/// A rolling quota window: usage, limit, what is left, and the forecast.
#[derive(Clone, Copy, Debug, PartialEq, Eq, Structural)]
pub struct QuotaPlan {
    pub consumed_tokens: i64,
    pub limit_tokens: i64,
    pub remaining_tokens: i64,
    pub reset_in_seconds: Option<i64>,
    pub projected_tokens: i64,
    pub forecast_status: ForecastStatus,
}

/// The projected usage at the window's reset: usage so far plus the recent
/// rate (tokens per forecast period) over the time left (the whole window when
/// its start is unknown).
pub open spec fn projected_spec(consumed: i64, recent: i64, reset_in_seconds: Option<i64>, window_seconds: i64, forecast_seconds: i64) -> i64 {
    let left = match reset_in_seconds {
        Some(s) => s,
        None => window_seconds,
    };
    let period = if forecast_seconds > 1 { forecast_seconds } else { 1 };
    clamp_i64(consumed + trunc_div(clamp_i64(recent * left) as int, period as int))
}

/// 80% of a limit, as `limit * 80 / 100`.
pub open spec fn eighty_percent(limit: i64) -> int {
    trunc_div(limit * 80, 100)
}

/// The forecast status for a window.
pub open spec fn forecast_spec(consumed: i64, projected: i64, limit: i64) -> ForecastStatus {
    if limit <= 0 {
        ForecastStatus::Unconfigured
    } else if projected >= limit {
        ForecastStatus::Danger
    } else if projected >= eighty_percent(limit) || consumed >= eighty_percent(limit) {
        ForecastStatus::Warning
    } else {
        ForecastStatus::Safe
    }
}

/// The quota window computed from the usage in the window (`consumed`), the
/// usage in the recent forecast period (`recent`), the seconds until the
/// window resets (if known) and the limit (zero or less: unconfigured).
pub open spec fn quota_plan_spec(consumed: i64, recent: i64, reset_in_seconds: Option<i64>, window_seconds: i64, forecast_seconds: i64, limit: i64) -> QuotaPlan {
    let projected = projected_spec(consumed, recent, reset_in_seconds, window_seconds, forecast_seconds);
    QuotaPlan {
        consumed_tokens: consumed,
        limit_tokens: limit,
        remaining_tokens: {
            let r = clamp_i64(limit - consumed);
            if r < 0 { 0 } else { r }
        },
        reset_in_seconds: reset_in_seconds,
        projected_tokens: projected,
        forecast_status: forecast_spec(consumed, projected, limit),
    }
}

/// The projected usage of a rolling quota window at its reset.
pub fn project_window_usage(
    consumed: i64,
    recent: i64,
    reset_in_seconds: Option<i64>,
    window_seconds: i64,
    forecast_seconds: i64,
) -> (projected: i64)
    ensures
        projected == projected_spec(consumed, recent, reset_in_seconds, window_seconds, forecast_seconds),
{
    let left = match reset_in_seconds {
        Some(s) => s,
        None => window_seconds,
    };
    let period = if forecast_seconds > 1 { forecast_seconds } else { 1 };
    sat_add(consumed, div_toward_zero(sat_mul(recent, left), period))
}

/// Computes a rolling quota window and its forecast. The 80% threshold is
/// only computed for a configured limit that the projection stays below.
pub fn plan_quota_window(
    consumed: i64,
    recent: i64,
    reset_in_seconds: Option<i64>,
    window_seconds: i64,
    forecast_seconds: i64,
    limit: i64,
) -> (p: QuotaPlan)
    requires
        limit <= 0 || projected_spec(consumed, recent, reset_in_seconds, window_seconds, forecast_seconds) >= limit
            || limit * 80 <= i64::MAX,
    ensures
        p == quota_plan_spec(consumed, recent, reset_in_seconds, window_seconds, forecast_seconds, limit),
{
    let projected = project_window_usage(consumed, recent, reset_in_seconds, window_seconds, forecast_seconds);
    let status = if limit <= 0 {
        ForecastStatus::Unconfigured
    } else if projected >= limit {
        ForecastStatus::Danger
    } else {
        let threshold = div_toward_zero(limit * 80, 100);
        if projected >= threshold || consumed >= threshold {
            ForecastStatus::Warning
        } else {
            ForecastStatus::Safe
        }
    };
    let difference = sat_sub(limit, consumed);
    QuotaPlan {
        consumed_tokens: consumed,
        limit_tokens: limit,
        remaining_tokens: if difference < 0 { 0 } else { difference },
        reset_in_seconds,
        projected_tokens: projected,
        forecast_status: status,
    }
}

/// A limit of zero (or less) means unconfigured; with a limit, what is used
/// and what remains add up to the limit while usage is within it, nothing
/// remains beyond it, and the window is in danger exactly when the projection
/// reaches the limit.
pub proof fn lemma_quota_plan_accounts_for_limit(
    consumed: i64,
    recent: i64,
    reset_in_seconds: Option<i64>,
    window_seconds: i64,
    forecast_seconds: i64,
    limit: i64,
)
    ensures
        ({
            let p = quota_plan_spec(consumed, recent, reset_in_seconds, window_seconds, forecast_seconds, limit);
            &&& (p.forecast_status == ForecastStatus::Unconfigured <==> limit <= 0)
            &&& (0 <= consumed <= limit ==> p.remaining_tokens + consumed == limit)
            &&& (consumed >= limit ==> p.remaining_tokens == 0)
            &&& p.remaining_tokens >= 0
            &&& (limit > 0 ==> (p.forecast_status == ForecastStatus::Danger <==> p.projected_tokens >= limit))
        }),
{
}

/// With a limit, the window is in warning exactly when the projection stays
/// below the limit but the projection or the usage so far reaches 80% of
/// it (`limit * 80 / 100`); it is safe exactly when both stay below that.
pub proof fn lemma_warning_near_limit(
    consumed: i64,
    recent: i64,
    reset_in_seconds: Option<i64>,
    window_seconds: i64,
    forecast_seconds: i64,
    limit: i64,
)
    requires
        limit > 0,
    ensures
        ({
            let p = quota_plan_spec(consumed, recent, reset_in_seconds, window_seconds, forecast_seconds, limit);
            let eighty = (limit * 80) / 100;
            &&& (p.forecast_status == ForecastStatus::Warning <==> p.projected_tokens < limit && (p.projected_tokens
                >= eighty || consumed >= eighty))
            &&& (p.forecast_status == ForecastStatus::Safe <==> p.projected_tokens < eighty && consumed < eighty)
        }),
{
}

// ---------------------------------------------------------------------------
// Monthly projection and risk

/// The number of days in a month of the Gregorian calendar (28 for a month
/// number outside 1–12).
pub open spec fn days_in_month_spec(year: int, month: int) -> int {
    if month == 1 || month == 3 || month == 5 || month == 7 || month == 8 || month == 10 || month == 12 {
        31
    } else if month == 4 || month == 6 || month == 9 || month == 11 {
        30
    } else if month == 2 && year % 4 == 0 && (year % 100 != 0 || year % 400 == 0) {
        29
    } else {
        28
    }
}

/// The number of days in a month.
pub fn days_in_month(year: i32, month: u32) -> (d: i64)
    ensures
        d == days_in_month_spec(year as int, month as int),
{
    if month == 1 || month == 3 || month == 5 || month == 7 || month == 8 || month == 10 || month == 12 {
        31
    } else if month == 4 || month == 6 || month == 9 || month == 11 {
        30
    } else if month == 2 && year % 4 == 0 && (year % 100 != 0 || year % 400 == 0) {
        29
    } else {
        28
    }
}

/// The daily average over the last seven days.
pub fn daily_average(seven_day_total: i64) -> (a: i64)
    ensures
        a == trunc_div(seven_day_total as int, 7),
{
    div_toward_zero(seven_day_total, 7)
}

/// The month's usage so far plus the daily average for each remaining day.
pub open spec fn projected_month_spec(month_used: int, average: int, days_in_month: int, day: int) -> int {
    month_used + average * (days_in_month - day)
}

/// Projects the month's total usage.
pub fn projected_monthly_tokens(month_used: i64, average: i64, days_in_month: i64, day: i64) -> (p: i64)
    requires
        0 <= day <= 31,
        0 <= days_in_month <= 31,
        i64::MIN <= average * (days_in_month - day) <= i64::MAX,
        i64::MIN <= projected_month_spec(month_used as int, average as int, days_in_month as int, day as int)
            <= i64::MAX,
    ensures
        p == projected_month_spec(month_used as int, average as int, days_in_month as int, day as int),
{
    month_used + average * (days_in_month - day)
}

/// The risk of exceeding the monthly budget.
#[derive(Clone, Copy, Debug, PartialEq, Eq, Structural)]
pub enum RiskLevel {
    /// No usage in the last seven days to project from.
    Insufficient,
    Low,
    Medium,
    High,
}

impl RiskLevel {
    /// The level as the dashboard names it.
    pub fn as_str(self) -> (s: &'static str)
        ensures
            s@ == risk_name(self),
    {
        match self {
            RiskLevel::Insufficient => "insufficient",
            RiskLevel::Low => "low",
            RiskLevel::Medium => "medium",
            RiskLevel::High => "high",
        }
    }
}

/// The name of a risk level.
pub open spec fn risk_name(r: RiskLevel) -> Seq<char> {
    match r {
        RiskLevel::Insufficient => "insufficient"@,
        RiskLevel::Low => "low"@,
        RiskLevel::Medium => "medium"@,
        RiskLevel::High => "high"@,
    }
}

/// Low below 80% of the budget (or without a budget), medium below 95%,
/// high from there; insufficient without usage in the last seven days.
pub open spec fn risk_spec(seven_day_total: i64, monthly_budget: i64, projected: i64) -> RiskLevel {
    if seven_day_total == 0 {
        RiskLevel::Insufficient
    } else if monthly_budget <= 0 || projected < trunc_div(monthly_budget * 80, 100) {
        RiskLevel::Low
    } else if projected < trunc_div(monthly_budget * 95, 100) {
        RiskLevel::Medium
    } else {
        RiskLevel::High
    }
}

/// The monthly risk level. The 80% and 95% thresholds are only computed
/// where they decide the level.
pub fn risk_level(seven_day_total: i64, monthly_budget: i64, projected: i64) -> (r: RiskLevel)
    requires
        seven_day_total == 0 || monthly_budget <= 0 || (monthly_budget * 80 <= i64::MAX && (projected < trunc_div(
            monthly_budget * 80,
            100,
        ) || monthly_budget * 95 <= i64::MAX)),
    ensures
        r == risk_spec(seven_day_total, monthly_budget, projected),
{
    if seven_day_total == 0 {
        RiskLevel::Insufficient
    } else if monthly_budget <= 0 || projected < div_toward_zero(monthly_budget * 80, 100) {
        RiskLevel::Low
    } else if projected < div_toward_zero(monthly_budget * 95, 100) {
        RiskLevel::Medium
    } else {
        RiskLevel::High
    }
}

// ---------------------------------------------------------------------------
// Daily-budget alerts

/// Today's usage in whole percent of the daily budget.
pub open spec fn budget_percent(today_total: i64, daily_budget: i64) -> int {
    trunc_div(today_total * 100, daily_budget as int)
}

/// The thresholds (80, 90, 95, in that order) whose alert is enabled and
/// reached; none without a daily budget.
pub open spec fn due_alerts_spec(today_total: i64, daily_budget: i64, alert80: bool, alert90: bool, alert95: bool) -> Seq<i64> {
    if daily_budget <= 0 {
        seq![]
    } else {
        let percent = budget_percent(today_total, daily_budget);
        let a: Seq<i64> = if alert80 && percent >= 80 { seq![80i64] } else { seq![] };
        let b: Seq<i64> = if alert90 && percent >= 90 { a.push(90i64) } else { a };
        if alert95 && percent >= 95 { b.push(95i64) } else { b }
    }
}

/// The budget alerts due for today's usage.
pub fn due_alerts(today_total: i64, daily_budget: i64, alert80: bool, alert90: bool, alert95: bool) -> (due: Vec<i64>)
    requires
        daily_budget <= 0 || i64::MIN <= today_total * 100 <= i64::MAX,
    ensures
        due@ == due_alerts_spec(today_total, daily_budget, alert80, alert90, alert95),
{
    let mut due: Vec<i64> = Vec::new();
    if daily_budget <= 0 {
        return due;
    }
    let percent = div_toward_zero(today_total * 100, daily_budget);
    if alert80 && percent >= 80 {
        due.push(80);
    }
    if alert90 && percent >= 90 {
        due.push(90);
    }
    if alert95 && percent >= 95 {
        due.push(95);
    }
    due
}

/// An alert is due exactly when it is enabled, a daily budget is set, and
/// today's usage reached that percentage of it.
pub proof fn lemma_alert_due_iff_reached(today_total: i64, daily_budget: i64, alert80: bool, alert90: bool, alert95: bool)
    ensures
        ({
            let due = due_alerts_spec(today_total, daily_budget, alert80, alert90, alert95);
            let reached = |t: int| daily_budget > 0 && budget_percent(today_total, daily_budget) >= t;
            &&& due.contains(80) <==> alert80 && reached(80)
            &&& due.contains(90) <==> alert90 && reached(90)
            &&& due.contains(95) <==> alert95 && reached(95)
            &&& forall|k: int| 0 <= k < due.len() ==> (due[k] == 80 || due[k] == 90 || due[k] == 95)
        }),
{
    let due = due_alerts_spec(today_total, daily_budget, alert80, alert90, alert95);
    if daily_budget > 0 {
        let percent = budget_percent(today_total, daily_budget);
        let a: Seq<i64> = if alert80 && percent >= 80 { seq![80i64] } else { seq![] };
        let b: Seq<i64> = if alert90 && percent >= 90 { a.push(90i64) } else { a };
        assert(a.contains(80) <==> alert80 && percent >= 80) by {
            if alert80 && percent >= 80 {
                assert(a[0] == 80);
            }
        }
        assert(b.contains(90) <==> alert90 && percent >= 90) by {
            if alert90 && percent >= 90 {
                assert(b[b.len() - 1] == 90);
            }
        }
        assert(b.contains(80) <==> a.contains(80)) by {
            if b.contains(80) && b != a {
                let k = choose|k: int| 0 <= k < b.len() && b[k] == 80;
                assert(k < a.len());
            }
            if a.contains(80) && b != a {
                let k = choose|k: int| 0 <= k < a.len() && a[k] == 80;
                assert(b[k] == 80);
            }
        }
        if alert95 && percent >= 95 {
            assert(due[due.len() - 1] == 95);
            assert(due.contains(80) <==> b.contains(80)) by {
                if due.contains(80) {
                    let k = choose|k: int| 0 <= k < due.len() && due[k] == 80;
                    assert(k < b.len());
                }
                if b.contains(80) {
                    let k = choose|k: int| 0 <= k < b.len() && b[k] == 80;
                    assert(due[k] == 80);
                }
            }
            assert(due.contains(90) <==> b.contains(90)) by {
                if due.contains(90) {
                    let k = choose|k: int| 0 <= k < due.len() && due[k] == 90;
                    assert(k < b.len());
                }
                if b.contains(90) {
                    let k = choose|k: int| 0 <= k < b.len() && b[k] == 90;
                    assert(due[k] == 90);
                }
            }
        }
    }
}

/// The key under which a day's alert is remembered:
/// `daily-YYYY-MM-DD-threshold`.
pub open spec fn alert_key_spec(year: int, month: int, day: int, threshold: int) -> Seq<char> {
    "daily-"@ + padded_decimal(year, 4) + "-"@ + padded_decimal(month, 2) + "-"@ + padded_decimal(day, 2)
        + "-"@ + padded_decimal(threshold, 0)
}

/// The key that marks a daily alert as sent, so that each threshold is
/// notified at most once a day.
pub fn daily_alert_key(year: i32, month: u32, day: u32, threshold: i64) -> (k: String)
    ensures
        k@ == alert_key_spec(year as int, month as int, day as int, threshold as int),
{
    let k = concat("daily-", format_padded(year as i64, 4).as_str());
    let k = concat(k.as_str(), "-");
    let k = concat(k.as_str(), format_padded(month as i64, 2).as_str());
    let k = concat(k.as_str(), "-");
    let k = concat(k.as_str(), format_padded(day as i64, 2).as_str());
    let k = concat(k.as_str(), "-");
    concat(k.as_str(), format_padded(threshold, 0).as_str())
}

/// The alerts of `due` still to send on a day, in order: each threshold
/// whose key for that day is not among the keys already sent, with its key.
pub open spec fn unsent_alerts_spec(due: Seq<i64>, year: int, month: int, day: int, sent: Seq<Seq<char>>) -> Seq<(i64, Seq<char>)>
    decreases due.len(),
{
    if due.len() == 0 {
        seq![]
    } else {
        let rest = unsent_alerts_spec(due.drop_last(), year, month, day, sent);
        let key = alert_key_spec(year, month, day, due.last() as int);
        if sent.contains(key) {
            rest
        } else {
            rest.push((due.last(), key))
        }
    }
}

/// The keys of alerts.
pub open spec fn alert_keys(alerts: Seq<(i64, Seq<char>)>) -> Seq<Seq<char>> {
    alerts.map_values(|a: (i64, Seq<char>)| a.1)
}

/// The thresholds and key characters of alerts.
pub open spec fn alerts_view(alerts: Seq<(i64, String)>) -> Seq<(i64, Seq<char>)> {
    alerts.map_values(|a: (i64, String)| (a.0, a.1@))
}

fn key_is_sent(sent: &Vec<String>, key: &str) -> (r: bool)
    ensures
        r == strings_view(sent@).contains(key@),
{
    let mut i: usize = 0;
    while i < sent.len()
        invariant
            i <= sent@.len(),
            forall|j: int| 0 <= j < i ==> (#[trigger] sent@[j])@ != key@,
        decreases sent@.len() - i,
    {
        if crate::text::str_eq(sent[i].as_str(), key) {
            assert(strings_view(sent@)[i as int] == key@);
            return true;
        }
        i += 1;
    }
    assert(!strings_view(sent@).contains(key@)) by {
        if strings_view(sent@).contains(key@) {
            let j = choose|j: int| 0 <= j < strings_view(sent@).len() && strings_view(sent@)[j] == key@;
            assert(sent@[j]@ == key@);
        }
    }
    false
}

/// The alerts to notify on a day: the due thresholds whose key for that day
/// is not among the keys already sent, each with the key to record.
pub fn alerts_to_send(due: &Vec<i64>, year: i32, month: u32, day: u32, sent: &Vec<String>) -> (alerts: Vec<(i64, String)>)
    ensures
        alerts_view(alerts@) == unsent_alerts_spec(due@, year as int, month as int, day as int, strings_view(sent@)),
{
    let mut alerts: Vec<(i64, String)> = Vec::new();
    let mut i: usize = 0;
    assert(due@.take(0) =~= Seq::<i64>::empty());
    while i < due.len()
        invariant
            i <= due@.len(),
            alerts_view(alerts@) == unsent_alerts_spec(
                due@.take(i as int),
                year as int,
                month as int,
                day as int,
                strings_view(sent@),
            ),
        decreases due@.len() - i,
    {
        let threshold = due[i];
        let key = daily_alert_key(year, month, day, threshold);
        let ghost prefix = due@.take(i as int);
        let ghost next = due@.take(i + 1);
        assert(next.drop_last() =~= prefix);
        assert(next.last() == threshold);
        if !key_is_sent(sent, key.as_str()) {
            let ghost before = alerts@;
            alerts.push((threshold, key));
            assert(alerts_view(alerts@) =~= alerts_view(before).push((threshold, alerts@.last().1@)));
        }
        i += 1;
    }
    assert(due@.take(due@.len() as int) =~= due@);
    alerts
}

proof fn lemma_due_keys_are_recorded(due: Seq<i64>, year: int, month: int, day: int, sent: Seq<Seq<char>>)
    ensures
        forall|j: int|
            0 <= j < due.len() ==> (sent + alert_keys(unsent_alerts_spec(due, year, month, day, sent))).contains(
                alert_key_spec(year, month, day, #[trigger] due[j] as int),
            ),
    decreases due.len(),
{
    if due.len() > 0 {
        let prefix = due.drop_last();
        lemma_due_keys_are_recorded(prefix, year, month, day, sent);
        let rest = unsent_alerts_spec(prefix, year, month, day, sent);
        let all = unsent_alerts_spec(due, year, month, day, sent);
        let key = alert_key_spec(year, month, day, due.last() as int);
        assert forall|j: int| 0 <= j < due.len() implies (sent + alert_keys(all)).contains(
            alert_key_spec(year, month, day, #[trigger] due[j] as int),
        ) by {
            let k = alert_key_spec(year, month, day, due[j] as int);
            if j < due.len() - 1 {
                assert(prefix[j] == due[j]);
                assert((sent + alert_keys(rest)).contains(k));
                let w = choose|w: int| 0 <= w < (sent + alert_keys(rest)).len() && (sent + alert_keys(rest))[w] == k;
                if !sent.contains(key) {
                    assert(alert_keys(all) =~= alert_keys(rest).push(key));
                }
                assert((sent + alert_keys(all))[w] == k);
            } else {
                if sent.contains(key) {
                    let w = choose|w: int| 0 <= w < sent.len() && sent[w] == key;
                    assert((sent + alert_keys(all))[w] == key);
                } else {
                    assert(alert_keys(all) =~= alert_keys(rest).push(key));
                    let w: int = (sent.len() + alert_keys(rest).len()) as int;
                    assert((sent + alert_keys(all))[w] == key);
                }
            }
        }
    }
}

proof fn lemma_nothing_unsent(due: Seq<i64>, year: int, month: int, day: int, sent: Seq<Seq<char>>)
    requires
        forall|j: int| 0 <= j < due.len() ==> sent.contains(alert_key_spec(year, month, day, #[trigger] due[j] as int)),
    ensures
        unsent_alerts_spec(due, year, month, day, sent) == Seq::<(i64, Seq<char>)>::empty(),
    decreases due.len(),
{
    if due.len() > 0 {
        let prefix = due.drop_last();
        assert forall|j: int| 0 <= j < prefix.len() implies sent.contains(
            alert_key_spec(year, month, day, #[trigger] prefix[j] as int),
        ) by {
            assert(prefix[j] == due[j]);
        }
        lemma_nothing_unsent(prefix, year, month, day, sent);
        assert(sent.contains(alert_key_spec(year, month, day, due[due.len() - 1] as int)));
    }
}

/// Each alert is notified at most once a day: once the keys of the alerts
/// to send are recorded beside those already sent, nothing is left to send
/// for the same day.
pub proof fn lemma_alerts_sent_once_per_day(due: Seq<i64>, year: int, month: int, day: int, sent: Seq<Seq<char>>)
    ensures
        unsent_alerts_spec(
            due,
            year,
            month,
            day,
            sent + alert_keys(unsent_alerts_spec(due, year, month, day, sent)),
        ) == Seq::<(i64, Seq<char>)>::empty(),
{
    lemma_due_keys_are_recorded(due, year, month, day, sent);
    lemma_nothing_unsent(due, year, month, day, sent + alert_keys(unsent_alerts_spec(due, year, month, day, sent)));
}

// ---------------------------------------------------------------------------
// Usage chart

/// Usage in one chart bucket.
#[derive(Debug)]
pub struct UsagePoint {
    pub bucket: String,
    pub label: String,
    pub totals: TokenTotals,
}

/// A project's usage, under its salted key and display name.
#[derive(Debug)]
pub struct ProjectUsage {
    pub project_key: String,
    pub display_name: String,
    pub total_tokens: i64,
}

/// A model's usage.
#[derive(Debug)]
pub struct ModelUsage {
    pub model: String,
    pub totals: TokenTotals,
}

/// The number of days a chart or model breakdown covers: the requested
/// range clamped to 1–30.
pub open spec fn range_days_spec(range_days: i64) -> i64 {
    if range_days < 1 { 1 } else if range_days > 30 { 30 } else { range_days }
}

/// Clamps a requested range to 1–30 days.
pub fn clamp_range_days(range_days: i64) -> (d: i64)
    ensures
        d == range_days_spec(range_days),
{
    if range_days < 1 { 1 } else if range_days > 30 { 30 } else { range_days }
}

/// The key of an hour bucket (`HH`) and its label (`HH:00`).
pub fn hour_bucket(hour: u32) -> (b: (String, String))
    ensures
        b.0@ == padded_decimal(hour as int, 2),
        b.1@ == padded_decimal(hour as int, 2) + ":00"@,
{
    let key = format_padded(hour as i64, 2);
    let label = concat(key.as_str(), ":00");
    (key, label)
}

/// The totals stored for `key`: those of the last row with that key, zero
/// when no row has it.
pub open spec fn totals_for_key(rows: Seq<(Seq<char>, TokenTotals)>, key: Seq<char>) -> TokenTotals
    decreases rows.len(),
{
    if rows.len() == 0 {
        zero_totals()
    } else if rows.last().0 == key {
        rows.last().1
    } else {
        totals_for_key(rows.drop_last(), key)
    }
}

/// The keys and totals of query rows.
pub open spec fn rows_view(rows: Seq<(String, TokenTotals)>) -> Seq<(Seq<char>, TokenTotals)> {
    rows.map_values(|r: (String, TokenTotals)| (r.0@, r.1))
}

fn lookup_totals(rows: &Vec<(String, TokenTotals)>, key: &str) -> (t: TokenTotals)
    ensures
        t == totals_for_key(rows_view(rows@), key@),
{
    let mut i: usize = rows.len();
    assert(rows@.take(i as int) =~= rows@);
    while i > 0
        invariant
            i <= rows@.len(),
            totals_for_key(rows_view(rows@), key@) == totals_for_key(rows_view(rows@.take(i as int)), key@),
        decreases i,
    {
        let ghost shorter = rows@.take(i - 1);
        assert(rows_view(rows@.take(i as int)).drop_last() =~= rows_view(shorter));
        if crate::text::str_eq(rows[i - 1].0.as_str(), key) {
            return rows[i - 1].1;
        }
        i -= 1;
    }
    assert(rows_view(rows@.take(0)).len() == 0);
    TokenTotals::default()
}

/// The chart: one point per bucket, in the order given, holding the totals
/// that the rows record for the bucket's key (zero when none).
pub fn chart_points(buckets: &Vec<(String, String)>, rows: &Vec<(String, TokenTotals)>) -> (points: Vec<UsagePoint>)
    ensures
        points@.len() == buckets@.len(),
        forall|k: int|
            0 <= k < buckets@.len() ==> {
                &&& (#[trigger] points@[k]).bucket@ == buckets@[k].0@
                &&& points@[k].label@ == buckets@[k].1@
                &&& points@[k].totals == totals_for_key(rows_view(rows@), buckets@[k].0@)
            },
{
    let mut points: Vec<UsagePoint> = Vec::new();
    for k in 0..buckets.len()
        invariant
            points@.len() == k,
            forall|j: int|
                0 <= j < k ==> {
                    &&& (#[trigger] points@[j]).bucket@ == buckets@[j].0@
                    &&& points@[j].label@ == buckets@[j].1@
                    &&& points@[j].totals == totals_for_key(rows_view(rows@), buckets@[j].0@)
                },
    {
        let key = buckets[k].0.clone();
        let label = buckets[k].1.clone();
        let totals = lookup_totals(rows, key.as_str());
        points.push(UsagePoint { bucket: key, label, totals });
    }
    points
}

/// A date of the proleptic Gregorian calendar as (year, month, day).
pub open spec fn is_valid_date(date: (int, int, int)) -> bool {
    1 <= date.1 <= 12 && 1 <= date.2 <= days_in_month_spec(date.0, date.1)
}

/// The day before a date.
pub open spec fn previous_day(date: (int, int, int)) -> (int, int, int) {
    if date.2 > 1 {
        (date.0, date.1, date.2 - 1)
    } else if date.1 > 1 {
        (date.0, date.1 - 1, days_in_month_spec(date.0, date.1 - 1))
    } else {
        (date.0 - 1, 12, 31)
    }
}

/// The date `n` days before `date`.
pub open spec fn days_before(date: (int, int, int), n: nat) -> (int, int, int)
    decreases n,
{
    if n == 0 {
        date
    } else {
        previous_day(days_before(date, (n - 1) as nat))
    }
}

/// The day after a date.
pub open spec fn next_day(date: (int, int, int)) -> (int, int, int) {
    if date.2 < days_in_month_spec(date.0, date.1) {
        (date.0, date.1, date.2 + 1)
    } else if date.1 < 12 {
        (date.0, date.1 + 1, 1)
    } else {
        (date.0 + 1, 1, 1)
    }
}

/// The day before a valid date is a valid date whose next day is that
/// date: no calendar day is skipped or repeated going back.
pub proof fn lemma_previous_day_precedes(date: (int, int, int))
    requires
        is_valid_date(date),
    ensures
        is_valid_date(previous_day(date)),
        next_day(previous_day(date)) == date,
{
}

/// The dates of a chart are consecutive calendar days: going back `n + 1`
/// days from a valid date and then one day forward gives the date `n` days
/// back, and every one of them is a valid date.
pub proof fn lemma_days_before_are_consecutive(date: (int, int, int), n: nat)
    requires
        is_valid_date(date),
    ensures
        is_valid_date(days_before(date, n)),
        next_day(days_before(date, n + 1)) == days_before(date, n),
    decreases n,
{
    if n > 0 {
        lemma_days_before_are_consecutive(date, (n - 1) as nat);
    }
    lemma_previous_day_precedes(days_before(date, n));
}

/// A year as a date shows it: four digits within 0–9999, otherwise a sign
/// and at least four digits.
pub open spec fn year_text(year: int) -> Seq<char> {
    if 0 <= year <= 9999 {
        padded_decimal(year, 4)
    } else if year < 0 {
        padded_decimal(year, 5)
    } else {
        "+"@ + padded_decimal(year, 4)
    }
}

/// A date as `YYYY-MM-DD`, the key of a day bucket.
pub open spec fn date_text(date: (int, int, int)) -> Seq<char> {
    year_text(date.0) + "-"@ + padded_decimal(date.1, 2) + "-"@ + padded_decimal(date.2, 2)
}

/// A date as `MM/DD`, the label of a day bucket.
pub open spec fn date_label(date: (int, int, int)) -> Seq<char> {
    padded_decimal(date.1, 2) + "/"@ + padded_decimal(date.2, 2)
}

fn step_back(year: i32, month: u32, day: u32) -> (prev: (i32, u32, u32))
    requires
        is_valid_date((year as int, month as int, day as int)),
        month == 1 && day == 1 ==> year > i32::MIN,
    ensures
        (prev.0 as int, prev.1 as int, prev.2 as int) == previous_day((year as int, month as int, day as int)),
        is_valid_date((prev.0 as int, prev.1 as int, prev.2 as int)),
{
    if day > 1 {
        (year, month, day - 1)
    } else if month > 1 {
        let d = days_in_month(year, month - 1);
        (year, month - 1, d as u32)
    } else {
        (year - 1, 12, 31)
    }
}

fn year_string(year: i32) -> (s: String)
    ensures
        s@ == year_text(year as int),
{
    if 0 <= year && year <= 9999 {
        format_padded(year as i64, 4)
    } else if year < 0 {
        format_padded(year as i64, 5)
    } else {
        concat("+", format_padded(year as i64, 4).as_str())
    }
}

fn day_bucket(date: (i32, u32, u32)) -> (b: (String, String))
    ensures
        b.0@ == date_text((date.0 as int, date.1 as int, date.2 as int)),
        b.1@ == date_label((date.0 as int, date.1 as int, date.2 as int)),
{
    let month = format_padded(date.1 as i64, 2);
    let day = format_padded(date.2 as i64, 2);
    let key = concat(year_string(date.0).as_str(), "-");
    let key = concat(key.as_str(), month.as_str());
    let key = concat(key.as_str(), "-");
    let key = concat(key.as_str(), day.as_str());
    let label = concat(month.as_str(), "/");
    let label = concat(label.as_str(), day.as_str());
    (key, label)
}

/// The day buckets of a chart of `days` days ending today: oldest first,
/// each the date's `YYYY-MM-DD` key and `MM/DD` label.
pub fn day_buckets(year: i32, month: u32, day: u32, days: i64) -> (buckets: Vec<(String, String)>)
    requires
        is_valid_date((year as int, month as int, day as int)),
        year > i32::MIN,
        1 <= days <= 30,
    ensures
        buckets@.len() == days,
        forall|i: int|
            0 <= i < days ==> {
                let date = days_before((year as int, month as int, day as int), (days - 1 - i) as nat);
                &&& (#[trigger] buckets@[i]).0@ == date_text(date)
                &&& buckets@[i].1@ == date_label(date)
            },
{
    let ghost today = (year as int, month as int, day as int);
    let count: usize = days as usize;
    let mut dates: Vec<(i32, u32, u32)> = Vec::new();
    let mut current: (i32, u32, u32) = (year, month, day);
    let mut k: usize = 0;
    while k < count
        invariant
            1 <= count <= 30,
            k <= count,
            year > i32::MIN,
            dates@.len() == k,
            k < count ==> (current.0 as int, current.1 as int, current.2 as int) == days_before(today, k as nat),
            is_valid_date((current.0 as int, current.1 as int, current.2 as int)),
            current.0 == year || (current.0 == year - 1 && current.1 == 12 && current.2 + k >= 31),
            forall|j: int|
                0 <= j < k ==> ((#[trigger] dates@[j]).0 as int, dates@[j].1 as int, dates@[j].2 as int)
                    == days_before(today, j as nat),
        decreases count - k,
    {
        dates.push(current);
        if k + 1 < count {
            current = step_back(current.0, current.1, current.2);
        }
        k += 1;
        proof {
            if k < count {
                assert(days_before(today, k as nat) == previous_day(days_before(today, (k - 1) as nat)));
            }
        }
    }
    let mut buckets: Vec<(String, String)> = Vec::new();
    let mut i: usize = 0;
    while i < count
        invariant
            count == days,
            1 <= count <= 30,
            i <= count,
            dates@.len() == count,
            forall|j: int|
                0 <= j < count ==> ((#[trigger] dates@[j]).0 as int, dates@[j].1 as int, dates@[j].2 as int)
                    == days_before(today, j as nat),
            buckets@.len() == i,
            forall|j: int|
                0 <= j < i ==> {
                    let date = days_before(today, (days - 1 - j) as nat);
                    &&& (#[trigger] buckets@[j]).0@ == date_text(date)
                    &&& buckets@[j].1@ == date_label(date)
                },
        decreases count - i,
    {
        let date = dates[count - 1 - i];
        buckets.push(day_bucket(date));
        i += 1;
    }
    buckets
}

/// The hour buckets of today's chart, from midnight through the current
/// hour.
pub fn today_hour_buckets(current_hour: u32) -> (buckets: Vec<(String, String)>)
    requires
        current_hour < 24,
    ensures
        buckets@.len() == current_hour + 1,
        forall|h: int|
            0 <= h <= current_hour ==> (#[trigger] buckets@[h]).0@ == padded_decimal(h, 2)
                && buckets@[h].1@ == padded_decimal(h, 2) + ":00"@,
{
    let mut buckets: Vec<(String, String)> = Vec::new();
    for hour in 0..current_hour + 1
        invariant
            buckets@.len() == hour,
            forall|h: int|
                0 <= h < hour ==> (#[trigger] buckets@[h]).0@ == padded_decimal(h, 2)
                    && buckets@[h].1@ == padded_decimal(h, 2) + ":00"@,
    {
        buckets.push(hour_bucket(hour));
    }
    buckets
}

} // verus!
