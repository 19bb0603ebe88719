use codex_token_monitor::dashboard::{
    alerts_to_send, chart_points, clamp_range_days, daily_alert_key, daily_average, day_buckets, days_in_month,
    due_alerts, hour_bucket, plan_quota_window, project_window_usage, projected_monthly_tokens, risk_level, today_hour_buckets, ForecastStatus, RiskLevel,
};
use codex_token_monitor::i18n::{language_for_locale, pause_menu_key, quota_alert, system_language, tray_text, EN_US, ZH_CN};
use codex_token_monitor::quota::{
    assign_quota_windows, check_response_status, locate_quota_windows, parse_auth, response_shape, status_message,
    QuotaError,
    WindowAssignment, WindowSource,
};
use codex_token_monitor::settings::{
    privacy_salt_or_default, reconcile_interval_seconds, sync_paused_from_value, sync_paused_value, validate_settings,
    SettingsError, SettingsFields,
};
use codex_token_monitor::json::is_json_document;
use codex_token_monitor::text::{format_decimal, format_padded, windows_path_file_name};
use codex_token_monitor::tokens::TokenTotals;
use codex_token_monitor::widget::{should_sync_after_wait, widget_corner_position, widget_size};

const ALL_ERRORS: [QuotaError; 5] = [
    QuotaError::AuthNotFound,
    QuotaError::AuthInvalid,
    QuotaError::AuthenticationExpired,
    QuotaError::QuotaUnavailable,
    QuotaError::ConnectionFailed,
];

#[test]
fn quota_error_codes_and_messages() {
    let codes: Vec<&str> = ALL_ERRORS.iter().map(|e| e.code()).collect();
    assert_eq!(codes, ["AUTH_NOT_FOUND", "AUTH_INVALID", "AUTH_EXPIRED", "QUOTA_UNAVAILABLE", "CONNECTION_FAILED"]);
    let messages: Vec<&str> = ALL_ERRORS.iter().map(|e| e.user_message()).collect();
    assert_eq!(messages, ["Please login Codex first", "Please login Codex first", "Authentication expired", "Quota unavailable", "Connection failed"]);
}

#[test]
fn stored_codes_read_back_as_user_messages() {
    for e in ALL_ERRORS {
        assert_eq!(status_message(e.code()), e.user_message());
    }
    assert_eq!(status_message("ok"), "");
    assert_eq!(status_message("NOT_SYNCED"), "Quota unavailable");
}

#[test]
fn usage_endpoint_statuses() {
    assert_eq!(check_response_status(200), Ok(()));
    assert_eq!(check_response_status(204), Ok(()));
    assert_eq!(check_response_status(401), Err(QuotaError::AuthenticationExpired));
    assert_eq!(check_response_status(403), Err(QuotaError::AuthenticationExpired));
    assert_eq!(check_response_status(302), Err(QuotaError::QuotaUnavailable));
    assert_eq!(check_response_status(500), Err(QuotaError::QuotaUnavailable));
}

#[test]
fn auth_contents_that_are_refused() {
    assert!(matches!(parse_auth("not json"), Err(QuotaError::AuthInvalid)));
    assert!(matches!(parse_auth(r#"{"tokens":{"account_id":"a"}}"#), Err(QuotaError::AuthInvalid)));
    assert!(matches!(parse_auth(r#"{"tokens":{"access_token":"t","account_id":""}}"#), Err(QuotaError::AuthInvalid)));
    let legacy = parse_auth(r#"{"tokens":{"access_token":""},"access_token":"top","account_id":"acc"}"#).ok().unwrap();
    assert_eq!((legacy.access_token(), legacy.account_id()), ("top", "acc"));
}

#[test]
fn quota_windows_are_located() {
    let nested = r#"{"rate_limit":{"primary_window":{"used_percent":35.5},"secondary_window":{"used_percent":60}}}"#;
    let (primary, secondary) = locate_quota_windows(nested).unwrap();
    assert_eq!(primary.as_deref(), Some("/rate_limit/primary_window"));
    assert_eq!(secondary.as_deref(), Some("/rate_limit/secondary_window"));
    let current = r#"{"rate_limits":{"primary":{"used_percent":12.0},"secondary":{"used_percent":48.0}}}"#;
    let (primary, secondary) = locate_quota_windows(current).unwrap();
    assert_eq!(primary.as_deref(), Some("/rate_limits/primary"));
    assert_eq!(secondary.as_deref(), Some("/rate_limits/secondary"));
    let null_secondary = r#"{"rate_limit":{"primary_window":{"used_percent":21.0},"secondary_window":null}}"#;
    let (_, secondary) = locate_quota_windows(null_secondary).unwrap();
    assert!(secondary.is_none());
    let only_secondary = r#"{"secondary_window":{"used_percent":1}}"#;
    let (primary, secondary) = locate_quota_windows(only_secondary).unwrap();
    assert!(primary.is_none());
    assert_eq!(secondary.as_deref(), Some("/secondary_window"));
    assert!(locate_quota_windows("{").is_none());
}

#[test]
fn quota_windows_are_classified_by_length() {
    assert_eq!(assign_quota_windows(None, None), Err(QuotaError::QuotaUnavailable));
    assert_eq!(
        assign_quota_windows(Some(Some(300 * 60)), Some(Some(10_080 * 60))),
        Ok(WindowAssignment { five_hour: Some(WindowSource::Primary), weekly: Some(WindowSource::Secondary) })
    );
    assert_eq!(
        assign_quota_windows(Some(Some(604_800)), None),
        Ok(WindowAssignment { five_hour: None, weekly: Some(WindowSource::Primary) })
    );
    assert_eq!(
        assign_quota_windows(Some(None), Some(None)),
        Ok(WindowAssignment { five_hour: Some(WindowSource::Primary), weekly: Some(WindowSource::Secondary) })
    );
    assert_eq!(
        assign_quota_windows(Some(None), Some(Some(3600))),
        Ok(WindowAssignment { five_hour: Some(WindowSource::Secondary), weekly: None })
    );
}

#[test]
fn rolling_quota_window_forecast() {
    let p = plan_quota_window(500, 500, Some(16_200), 18_000, 3_600, 1_000);
    assert_eq!((p.consumed_tokens, p.remaining_tokens, p.limit_tokens), (500, 500, 1_000));
    assert_eq!(p.projected_tokens, 500 + 500 * 16_200 / 3_600);
    assert_eq!(p.forecast_status, ForecastStatus::Danger);
    assert_eq!(p.forecast_status.as_str(), "danger");
    let unconfigured = plan_quota_window(500, 0, None, 18_000, 3_600, 0);
    assert_eq!(unconfigured.forecast_status.as_str(), "unconfigured");
    assert_eq!(unconfigured.remaining_tokens, 0);
    let warning = plan_quota_window(800, 0, Some(100), 18_000, 3_600, 1_000);
    assert_eq!(warning.forecast_status, ForecastStatus::Warning);
    let safe = plan_quota_window(100, 10, None, 18_000, 3_600, 1_000);
    assert_eq!(safe.projected_tokens, 150);
    assert_eq!(safe.forecast_status.as_str(), "safe");
    let over = plan_quota_window(1_500, 0, Some(0), 18_000, 0, 1_000);
    assert_eq!(over.remaining_tokens, 0);
}

#[test]
fn monthly_projection_and_risk() {
    assert_eq!(days_in_month(2024, 2), 29);
    assert_eq!(days_in_month(2023, 2), 28);
    assert_eq!(days_in_month(1900, 2), 28);
    assert_eq!(days_in_month(2000, 2), 29);
    assert_eq!(days_in_month(2026, 4), 30);
    assert_eq!(days_in_month(2026, 12), 31);
    assert_eq!(daily_average(700), 100);
    assert_eq!(daily_average(-13), -1);
    assert_eq!(projected_monthly_tokens(1_000, 100, 31, 10), 3_100);
    assert_eq!(risk_level(0, 1_000, 5_000), RiskLevel::Insufficient);
    assert_eq!(risk_level(10, 0, 5_000).as_str(), "low");
    assert_eq!(risk_level(10, 1_000, 799).as_str(), "low");
    assert_eq!(risk_level(10, 1_000, 800).as_str(), "medium");
    assert_eq!(risk_level(10, 1_000, 950).as_str(), "high");
    assert_eq!(risk_level(0, 0, 0).as_str(), "insufficient");
}

#[test]
fn daily_budget_alerts() {
    assert_eq!(due_alerts(920, 1_000, true, true, true), vec![80, 90]);
    assert_eq!(due_alerts(950, 1_000, false, true, true), vec![90, 95]);
    assert_eq!(due_alerts(10_000, 0, true, true, true), Vec::<i64>::new());
    assert_eq!(due_alerts(799, 1_000, true, true, true), Vec::<i64>::new());
    assert_eq!(daily_alert_key(2026, 7, 5, 80), "daily-2026-07-05-80");
    assert_eq!(daily_alert_key(-5, 12, 31, 95), "daily--005-12-31-95");
}

#[test]
fn chart_buckets_and_points() {
    assert_eq!(clamp_range_days(0), 1);
    assert_eq!(clamp_range_days(7), 7);
    assert_eq!(clamp_range_days(90), 30);
    assert_eq!(hour_bucket(7), ("07".to_string(), "07:00".to_string()));
    let buckets = today_hour_buckets(2);
    assert_eq!(buckets.len(), 3);
    assert_eq!(buckets[2].1, "02:00");
    let rows = vec![("01".to_string(), TokenTotals::from_categories(1, 2, 3, 4))];
    let points = chart_points(&buckets, &rows);
    assert_eq!(points.len(), 3);
    assert_eq!(points[0].totals.total_tokens, 0);
    assert_eq!(points[1].totals.total_tokens, 10);
    assert_eq!(points[1].bucket, "01");
}

#[test]
fn day_buckets_cross_months_and_years() {
    let week = day_buckets(2024, 3, 2, 4);
    let keys: Vec<&str> = week.iter().map(|b| b.0.as_str()).collect();
    assert_eq!(keys, ["2024-02-28", "2024-02-29", "2024-03-01", "2024-03-02"]);
    assert_eq!(week[1].1, "02/29");
    let new_year = day_buckets(2025, 1, 2, 3);
    let keys: Vec<&str> = new_year.iter().map(|b| b.0.as_str()).collect();
    assert_eq!(keys, ["2024-12-31", "2025-01-01", "2025-01-02"]);
    assert_eq!(new_year[0].1, "12/31");
    let month = day_buckets(2025, 1, 1, 30);
    assert_eq!(month.len(), 30);
    assert_eq!(month[0].0, "2024-12-03");
    assert_eq!(month[29].0, "2025-01-01");
    assert_eq!(day_buckets(2023, 3, 1, 2)[0].0, "2023-02-28");
    assert_eq!(day_buckets(10000, 1, 1, 1)[0].0, "+10000-01-01");
    assert_eq!(day_buckets(0, 1, 1, 2)[0].0, "-0001-12-31");
}

fn fields() -> SettingsFields {
    SettingsFields {
        codex_path: String::new(),
        refresh_interval_seconds: 5,
        theme: "system".to_string(),
        language: "en-US".to_string(),
        floating_opacity_in_range: true,
        floating_mode: "auto".to_string(),
        daily_budget: 0,
        monthly_budget: 0,
        five_hour_limit: 0,
        weekly_limit: 0,
    }
}

#[test]
fn settings_validation_reports_the_first_broken_rule() {
    assert_eq!(validate_settings(&fields(), false), Ok(()));
    assert_eq!(validate_settings(&SettingsFields { refresh_interval_seconds: 2, theme: "x".into(), ..fields() }, true), Err(SettingsError::RefreshInterval));
    assert_eq!(validate_settings(&SettingsFields { theme: "blue".into(), ..fields() }, true), Err(SettingsError::Theme));
    assert_eq!(validate_settings(&SettingsFields { language: "fr-FR".into(), ..fields() }, true), Err(SettingsError::Language));
    assert_eq!(validate_settings(&SettingsFields { floating_opacity_in_range: false, ..fields() }, true), Err(SettingsError::FloatingOpacity));
    assert_eq!(validate_settings(&SettingsFields { floating_mode: "huge".into(), ..fields() }, true), Err(SettingsError::FloatingMode));
    assert_eq!(validate_settings(&SettingsFields { weekly_limit: -1, ..fields() }, true), Err(SettingsError::NegativeLimit));
    assert_eq!(validate_settings(&SettingsFields { codex_path: "D:\\x".into(), ..fields() }, false), Err(SettingsError::NotCodexHome));
    assert_eq!(validate_settings(&SettingsFields { codex_path: "D:\\x".into(), floating_mode: "orb".into(), ..fields() }, true), Ok(()));
    assert_eq!(SettingsError::NotCodexHome.message(), "The selected folder is not a Codex data directory");
    assert_eq!(SettingsError::RefreshInterval.message(), "Refresh interval must be 1, 5, 10, or 30 seconds");
    assert_eq!(reconcile_interval_seconds(0), 1);
    assert_eq!(reconcile_interval_seconds(30), 30);
}

#[test]
fn pause_switch_and_salt_are_read_back() {
    for paused in [true, false] {
        assert_eq!(sync_paused_from_value(Some(sync_paused_value(paused))), paused);
    }
    assert!(!sync_paused_from_value(None));
    assert!(!sync_paused_from_value(Some("TRUE")));
    assert_eq!(privacy_salt_or_default(None), "local");
    assert_eq!(privacy_salt_or_default(Some("abc".to_string())), "abc");
}

#[test]
fn native_texts_in_both_languages() {
    let keys = ["open", "settings", "floating_window", "pause_sync", "resume_sync", "exit", "today", "other"];
    let zh: Vec<&str> = keys.iter().map(|k| tray_text("zh-TW", k)).collect();
    assert_eq!(zh, ["打开窗口", "设置", "悬浮窗", "暂停同步", "恢复同步", "退出", "今日", "Codex Token Monitor"]);
    let en: Vec<&str> = keys.iter().map(|k| tray_text("de-DE", k)).collect();
    assert_eq!(en, ["Open", "Settings", "Floating Window", "Pause Sync", "Resume Sync", "Exit", "Today", "Codex Token Monitor"]);
    assert_eq!(tray_text("ZH", "exit"), "退出");
    assert_eq!(quota_alert(ZH_CN, 95), "Codex Token 用量已达到每日预算的 95%");
    assert_eq!(quota_alert(EN_US, 80), "Codex token usage reached 80% of the daily budget");
    assert_eq!(quota_alert("z", -3), "Codex token usage reached -3% of the daily budget");
    assert_eq!(pause_menu_key(true), "resume_sync");
    assert_eq!(pause_menu_key(false), "pause_sync");
    assert_eq!(language_for_locale(Some("zh-Hans-CN")), ZH_CN);
    assert_eq!(language_for_locale(None), EN_US);
    let system = system_language();
    assert!(system == ZH_CN || system == EN_US);
}

#[test]
fn decimal_formatting() {
    assert_eq!(format_decimal(0), "0");
    assert_eq!(format_decimal(-42), "-42");
    assert_eq!(format_decimal(i64::MIN), i64::MIN.to_string());
    assert_eq!(format_decimal(i64::MAX), i64::MAX.to_string());
    assert_eq!(format_padded(7, 4), "0007");
    assert_eq!(format_padded(-7, 4), "-007");
    assert_eq!(format_padded(12345, 2), "12345");
}

#[test]
fn floating_window_geometry() {
    assert_eq!(widget_size("detailed"), (468, 480));
    assert_eq!(widget_size("compact"), (320, 176));
    assert_eq!(widget_size("auto"), (320, 176));
    assert_eq!(widget_corner_position(0, 0, 1920, 1080, 320, 176), (1582, 846));
    assert!(should_sync_after_wait(false, true, false));
    assert!(should_sync_after_wait(false, false, true));
    assert!(!should_sync_after_wait(true, true, true));
    assert!(!should_sync_after_wait(false, false, false));
}

#[test]
fn response_shape_lists_keys_without_values() {
    let body = r#"{"rate_limit":{"primary_window":{"used_percent":1,"reset_after_seconds":2},"secondary_window":null},"plan":"x"}"#;
    assert_eq!(
        response_shape(200, body),
        "http_status=200;top_keys=plan,rate_limit;rate_keys=primary_window,secondary_window;primary_keys=reset_after_seconds,used_percent;secondary_keys="
    );
    let current = r#"{"rate_limits":{"primary":{"b":1,"a":2}},"usage":{"primary_window":{"z":0}}}"#;
    assert_eq!(
        response_shape(200, current),
        "http_status=200;top_keys=rate_limits,usage;rate_keys=primary;primary_keys=a,b;secondary_keys="
    );
    assert_eq!(
        response_shape(500, "not json"),
        "http_status=500;top_keys=;rate_keys=;primary_keys=;secondary_keys="
    );
    assert_eq!(response_shape(401, "[1]"), "http_status=401;top_keys=;rate_keys=;primary_keys=;secondary_keys=");
}

#[test]
fn json_documents_are_recognised() {
    assert!(is_json_document("{\"a\":1}"));
    assert!(!is_json_document("{"));
}

#[test]
fn alerts_are_sent_once_per_day() {
    let due = due_alerts(950, 1000, true, true, true);
    let first = alerts_to_send(&due, 2026, 7, 16, &vec![]);
    let thresholds: Vec<i64> = first.iter().map(|a| a.0).collect();
    assert_eq!(thresholds, [80, 90, 95]);
    assert_eq!(first[0].1, "daily-2026-07-16-80");
    let sent: Vec<String> = first.into_iter().map(|a| a.1).collect();
    assert!(alerts_to_send(&due, 2026, 7, 16, &sent).is_empty());
    let next_day = alerts_to_send(&due, 2026, 7, 17, &sent);
    assert_eq!(next_day.len(), 3);
    let partly = alerts_to_send(&due, 2026, 7, 16, &vec!["daily-2026-07-16-90".to_string()]);
    let thresholds: Vec<i64> = partly.iter().map(|a| a.0).collect();
    assert_eq!(thresholds, [80, 95]);
}

#[test]
fn thresholds_are_computed_only_where_they_decide() {
    assert_eq!(project_window_usage(100, 50, Some(3600), 18_000, 3_600, ), 150);
    let full = plan_quota_window(i64::MAX, 0, None, 18_000, 3_600, i64::MAX);
    assert_eq!(full.forecast_status, ForecastStatus::Danger);
    assert_eq!(risk_level(0, i64::MAX, 5), RiskLevel::Insufficient);
    assert_eq!(risk_level(10, i64::MAX / 90, 5), RiskLevel::Low);
}

#[test]
fn windows_file_names_follow_prefix_rules() {
    assert_eq!(windows_path_file_name("C:\\Users\\me\\proj").as_deref(), Some("proj"));
    assert_eq!(windows_path_file_name("C:foo").as_deref(), Some("foo"));
    assert_eq!(windows_path_file_name("\\C:foo").as_deref(), Some("C:foo"));
    assert_eq!(windows_path_file_name("/C:").as_deref(), Some("C:"));
    assert_eq!(windows_path_file_name("C:"), None);
    assert_eq!(windows_path_file_name("C:.."), None);
    assert_eq!(windows_path_file_name("C:."), None);
    assert_eq!(windows_path_file_name("\\\\server\\share"), None);
}
