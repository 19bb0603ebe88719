use codex_token_monitor::i18n::{normalize_language, quota_alert, tray_text, EN_US, ZH_CN};
use codex_token_monitor::parser::{parse_line, token_totals, SessionContext};
use codex_token_monitor::quota::parse_auth;
use codex_token_monitor::tokens::TokenTotals;

#[test]
fn detailed_categories_are_disjoint_and_sum_to_total() {
    let totals = TokenTotals::from_inclusive_counts(120, 50, 80, 40);
    assert_eq!(totals.input_tokens, 70);
    assert_eq!(totals.cached_input_tokens, 50);
    assert_eq!(totals.output_tokens, 40);
    assert_eq!(totals.reasoning_output_tokens, 40);
    assert_eq!(totals.total_tokens, 200);
}

#[test]
fn normalizes_supported_and_future_locales() {
    assert_eq!(normalize_language("zh-CN"), ZH_CN);
    assert_eq!(normalize_language("zh-TW"), ZH_CN);
    assert_eq!(normalize_language("ja-JP"), EN_US);
}

#[test]
fn translates_tray_and_notification_text() {
    assert_eq!(tray_text(ZH_CN, "open"), "打开窗口");
    assert_eq!(tray_text(EN_US, "open"), "Open");
    assert!(quota_alert(ZH_CN, 90).contains("90%"));
    assert!(quota_alert(EN_US, 90).contains("90%"));
}

#[test]
fn parses_current_codex_token_event_without_content() {
    let mut ctx = SessionContext::default();
    parse_line(r#"{"timestamp":"2026-07-16T10:00:00Z","type":"session_meta","payload":{"id":"s1","cwd":"C:\\work\\alpha","model":"gpt-codex","context_window":100000}}"#, "a", 0, &mut ctx, "salt").unwrap();
    let event = parse_line(r#"{"timestamp":"2026-07-16T10:01:00Z","type":"event_msg","payload":{"type":"token_count","info":{"last_token_usage":{"input_tokens":100,"cached_input_tokens":20,"output_tokens":40,"reasoning_output_tokens":10,"total_tokens":140},"model_context_window":100000}}}"#, "a", 100, &mut ctx, "salt").unwrap().unwrap();
    assert_eq!(event.session_id, "s1");
    assert_eq!(event.totals.input_tokens, 80);
    assert_eq!(event.totals.cached_input_tokens, 20);
    assert_eq!(event.totals.output_tokens, 30);
    assert_eq!(event.totals.reasoning_output_tokens, 10);
    assert_eq!(event.totals.total_tokens, 140);
    assert_eq!(event.project_name.as_deref(), Some("alpha"));
}

#[test]
fn maps_openai_compatible_detail_fields() {
    let value = r#"{"prompt_tokens":100,"completion_tokens":50,"prompt_tokens_details":{"cached_tokens":25},"completion_tokens_details":{"reasoning_tokens":15},"total_tokens":150}"#;
    let totals = token_totals(value, "");
    assert_eq!(totals.input_tokens, 75);
    assert_eq!(totals.cached_input_tokens, 25);
    assert_eq!(totals.output_tokens, 35);
    assert_eq!(totals.reasoning_output_tokens, 15);
    assert_eq!(totals.total_tokens, 150);
}

#[test]
fn skips_zero_cumulative_initialization_and_uses_deltas() {
    let mut ctx = SessionContext::default();
    parse_line(r#"{"timestamp":"2026-07-16T10:00:00Z","type":"session_meta","payload":{"id":"s1","model":"gpt-codex"}}"#, "a", 0, &mut ctx, "salt").unwrap();
    let initial = parse_line(r#"{"timestamp":"2026-07-16T10:00:01Z","type":"event_msg","payload":{"type":"token_count","info":{"last_token_usage":{"input_tokens":7000,"output_tokens":552,"total_tokens":7552},"total_token_usage":{"input_tokens":0,"output_tokens":0,"total_tokens":0}}}}"#, "a", 10, &mut ctx, "salt").unwrap();
    assert!(initial.is_none());

    let first = parse_line(r#"{"timestamp":"2026-07-16T10:00:02Z","type":"event_msg","payload":{"type":"token_count","info":{"last_token_usage":{"input_tokens":100,"output_tokens":40,"total_tokens":140},"total_token_usage":{"input_tokens":100,"output_tokens":40,"total_tokens":140}}}}"#, "a", 20, &mut ctx, "salt").unwrap().unwrap();
    let second = parse_line(r#"{"timestamp":"2026-07-16T10:00:03Z","type":"event_msg","payload":{"type":"token_count","info":{"last_token_usage":{"input_tokens":150,"output_tokens":50,"total_tokens":200},"total_token_usage":{"input_tokens":250,"output_tokens":90,"total_tokens":340}}}}"#, "a", 30, &mut ctx, "salt").unwrap().unwrap();

    assert_eq!(first.totals.total_tokens, 140);
    assert_eq!(second.totals.total_tokens, 200);
    assert_eq!(second.totals.input_tokens, 150);
}

#[test]
fn reads_nested_auth_without_persisting_credentials() {
    let contents = r#"{"tokens":{"access_token":"secret-access","account_id":"account-123","refresh_token":"must-not-be-read"}}"#;
    let auth = parse_auth(contents).ok().unwrap();
    assert_eq!(auth.access_token(), "secret-access");
    assert_eq!(auth.account_id(), "account-123");
}
