use codex_token_monitor::parser::{parse_line, project_identity, token_totals, SessionContext};
use codex_token_monitor::sync::{parse_chunk, resume_point, SyncReport};
use codex_token_monitor::tokens::{usage_delta, TokenTotals};

const META: &str = r#"{"timestamp":"2026-07-16T10:00:00Z","type":"session_meta","payload":{"id":"s1","cwd":"C:\\work\\alpha","model":"gpt-codex","context_window":100000}}"#;

fn token_line(timestamp: &str, last: &str, total: Option<&str>) -> String {
    let mut info = format!(r#""last_token_usage":{last}"#);
    if let Some(total) = total {
        info.push_str(&format!(r#","total_token_usage":{total}"#));
    }
    format!(r#"{{"timestamp":"{timestamp}","type":"event_msg","payload":{{"type":"token_count","info":{{{info}}}}}}}"#)
}

#[test]
fn categories_clamp_negative_counts_to_zero() {
    let t = TokenTotals::from_categories(-5, 3, -1, 2);
    assert_eq!((t.input_tokens, t.cached_input_tokens, t.output_tokens, t.reasoning_output_tokens), (0, 3, 0, 2));
    assert_eq!(t.total_tokens, 5);
}

#[test]
fn categories_total_saturates_at_max() {
    let t = TokenTotals::from_categories(i64::MAX, 1, 1, 1);
    assert_eq!(t.total_tokens, i64::MAX);
}

#[test]
fn inclusive_counts_cap_cached_and_reasoning_at_their_totals() {
    let t = TokenTotals::from_inclusive_counts(10, 50, 7, 9);
    assert_eq!((t.input_tokens, t.cached_input_tokens), (0, 10));
    assert_eq!((t.output_tokens, t.reasoning_output_tokens), (0, 7));
    assert_eq!(t.total_tokens, 17);
    let negative = TokenTotals::from_inclusive_counts(-4, 2, 5, -3);
    assert_eq!((negative.input_tokens, negative.cached_input_tokens), (0, 0));
    assert_eq!((negative.output_tokens, negative.reasoning_output_tokens), (5, 0));
    assert_eq!(negative.total_tokens, 5);
}

#[test]
fn inclusive_split_partitions_the_counts() {
    for (input, cached, output, reasoning) in [(120, 50, 80, 40), (0, 0, 0, 0), (9, 9, 3, 0), (5, 100, 5, 100)] {
        let t = TokenTotals::from_inclusive_counts(input, cached, output, reasoning);
        assert_eq!(t.input_tokens + t.cached_input_tokens, input);
        assert_eq!(t.output_tokens + t.reasoning_output_tokens, output);
        assert_eq!(t.total_tokens, input + output);
    }
}

#[test]
fn recalculate_sums_the_categories() {
    let mut t = TokenTotals { input_tokens: 1, cached_input_tokens: 2, output_tokens: 3, reasoning_output_tokens: 4, total_tokens: 99 };
    t.recalculate();
    assert_eq!(t.total_tokens, 10);
    let mut low = TokenTotals { input_tokens: i64::MIN, cached_input_tokens: -1, output_tokens: 0, reasoning_output_tokens: 0, total_tokens: 0 };
    low.recalculate();
    assert_eq!(low.total_tokens, i64::MIN);
}

#[test]
fn default_totals_are_zero() {
    let t = TokenTotals::default();
    assert_eq!(t, TokenTotals { input_tokens: 0, cached_input_tokens: 0, output_tokens: 0, reasoning_output_tokens: 0, total_tokens: 0 });
}

#[test]
fn delta_restores_the_later_reading() {
    let previous = TokenTotals::from_categories(100, 10, 40, 5);
    let current = TokenTotals::from_categories(250, 30, 90, 5);
    let d = usage_delta(&current, &previous);
    assert_eq!(previous.input_tokens + d.input_tokens, current.input_tokens);
    assert_eq!(previous.total_tokens + d.total_tokens, current.total_tokens);
    assert_eq!(d.total_tokens, 220);
    let saturated = usage_delta(&TokenTotals { total_tokens: i64::MIN, ..TokenTotals::default() }, &TokenTotals { total_tokens: 1, ..TokenTotals::default() });
    assert_eq!(saturated.total_tokens, i64::MIN);
}

#[test]
fn cumulative_deltas_telescope_to_the_last_reading() {
    let mut ctx = SessionContext::default();
    parse_line(META, "a", 0, &mut ctx, "salt").unwrap();
    let readings = [140, 340, 400, 1000];
    let mut sum = 0;
    for (k, total) in readings.iter().enumerate() {
        let line = token_line(&format!("2026-07-16T10:0{k}:00Z"), r#"{"input_tokens":1,"output_tokens":1}"#, Some(&format!(r#"{{"input_tokens":{total},"total_tokens":{total}}}"#)));
        sum += parse_line(&line, "a", 0, &mut ctx, "salt").unwrap().unwrap().totals.total_tokens;
    }
    assert_eq!(sum, 1000);
    assert_eq!(ctx.cumulative_usage.total_tokens, 1000);
}

#[test]
fn decreasing_cumulative_reading_falls_back_to_last_turn() {
    let mut ctx = SessionContext::default();
    parse_line(META, "a", 0, &mut ctx, "salt").unwrap();
    let up = token_line("2026-07-16T10:01:00Z", r#"{"input_tokens":1}"#, Some(r#"{"input_tokens":500,"total_tokens":500}"#));
    parse_line(&up, "a", 0, &mut ctx, "salt").unwrap().unwrap();
    let down = token_line("2026-07-16T10:02:00Z", r#"{"input_tokens":30,"output_tokens":12}"#, Some(r#"{"input_tokens":100,"total_tokens":100}"#));
    let event = parse_line(&down, "a", 0, &mut ctx, "salt").unwrap().unwrap();
    assert_eq!(event.totals.input_tokens, 30);
    assert_eq!(event.totals.output_tokens, 12);
    assert_eq!(event.totals.total_tokens, 42);
    assert_eq!(ctx.cumulative_usage.total_tokens, 100);
}

#[test]
fn content_lines_are_not_parsed() {
    let mut ctx = SessionContext::default();
    parse_line(META, "a", 0, &mut ctx, "salt").unwrap();
    let before = format!("{:?}", ctx);
    let content = r#"{"type":"response_item","payload":{"role":"user","content":"secret prompt {not json"}}"#;
    assert!(parse_line(content, "a", 0, &mut ctx, "salt").unwrap().is_none());
    assert!(parse_line("not json at all", "a", 0, &mut ctx, "salt").unwrap().is_none());
    assert_eq!(format!("{:?}", ctx), before);
}

#[test]
fn marked_line_that_is_not_json_is_an_error() {
    let mut ctx = SessionContext::default();
    assert!(parse_line(r#"{"type":"token_count" broken"#, "a", 0, &mut ctx, "salt").is_err());
    assert_eq!(ctx.session_id, "");
}

#[test]
fn turn_context_updates_model_and_window() {
    let mut ctx = SessionContext::default();
    parse_line(META, "a", 0, &mut ctx, "salt").unwrap();
    parse_line(r#"{"type":"turn_context","payload":{"model":"gpt-5","model_context_window":272000}}"#, "a", 0, &mut ctx, "salt").unwrap();
    assert_eq!(ctx.model, "gpt-5");
    assert_eq!(ctx.context_window, Some(272000));
    parse_line(r#"{"type":"turn_context","payload":{}}"#, "a", 0, &mut ctx, "salt").unwrap();
    assert_eq!(ctx.model, "gpt-5");
    assert_eq!(ctx.context_window, Some(272000));
}

#[test]
fn session_meta_without_cwd_keeps_project() {
    let mut ctx = SessionContext::default();
    parse_line(META, "a", 0, &mut ctx, "salt").unwrap();
    let key = ctx.project_key.clone();
    parse_line(r#"{"type":"session_meta","payload":{"session_id":"s2"}}"#, "a", 0, &mut ctx, "salt").unwrap();
    assert_eq!(ctx.session_id, "s2");
    assert_eq!(ctx.model, "");
    assert_eq!(ctx.context_window, None);
    assert_eq!(ctx.project_key, key);
    assert_eq!(ctx.project_name.as_deref(), Some("alpha"));
}

#[test]
fn event_identity_is_stable_on_replay() {
    let line = token_line("2026-07-16T10:01:00Z", r#"{"input_tokens":5,"output_tokens":3,"total_tokens":8}"#, None);
    let mut a = SessionContext::default();
    parse_line(META, "a", 0, &mut a, "salt").unwrap();
    let mut b = SessionContext::default();
    parse_line(META, "a", 0, &mut b, "salt").unwrap();
    let first = parse_line(&line, "a", 0, &mut a, "salt").unwrap().unwrap();
    let replay = parse_line(&line, "a", 0, &mut b, "salt").unwrap().unwrap();
    assert_eq!(first.event_id, replay.event_id);
    assert_eq!(first.event_id.len(), 64);
    assert!(first.event_id.chars().all(|c| c.is_ascii_hexdigit() && !c.is_ascii_uppercase()));
    let later = token_line("2026-07-16T10:02:00Z", r#"{"input_tokens":5,"output_tokens":3,"total_tokens":8}"#, None);
    let other = parse_line(&later, "a", 0, &mut a, "salt").unwrap().unwrap();
    assert_ne!(first.event_id, other.event_id);
}

#[test]
fn event_takes_session_fields_and_fallbacks() {
    let mut ctx = SessionContext::default();
    parse_line(META, "a", 0, &mut ctx, "salt").unwrap();
    let line = r#"{"session_id":"override","type":"event_msg","payload":{"type":"token_count","usage":{"prompt_tokens":9}}}"#;
    let event = parse_line(line, "a", 0, &mut ctx, "salt").unwrap().unwrap();
    assert_eq!(event.session_id, "override");
    assert_eq!(event.timestamp, "2026-07-16T10:00:00Z");
    assert_eq!(event.model, "gpt-codex");
    assert_eq!(event.context_window, Some(100000));
    assert_eq!(event.totals.input_tokens, 9);
}

#[test]
fn events_need_a_session_and_usage() {
    let mut ctx = SessionContext::default();
    let line = token_line("2026-07-16T10:01:00Z", r#"{"input_tokens":5}"#, None);
    assert!(parse_line(&line, "a", 0, &mut ctx, "salt").unwrap().is_none());
    parse_line(META, "a", 0, &mut ctx, "salt").unwrap();
    let empty = token_line("2026-07-16T10:01:00Z", r#"{"cached_input_tokens":5}"#, None);
    assert!(parse_line(&empty, "a", 0, &mut ctx, "salt").unwrap().is_none());
    let other_kind = r#"{"type":"event_msg","payload":{"type":"agent_message","token_count":1}}"#;
    assert!(parse_line(other_kind, "a", 0, &mut ctx, "salt").unwrap().is_none());
}

#[test]
fn explicit_uncached_and_visible_counts_are_used() {
    let doc = r#"{"input_tokens":100,"cached_input_tokens":30,"uncached_input_tokens":60,"output_tokens":50,"reasoning_output_tokens":10}"#;
    let t = token_totals(doc, "");
    assert_eq!((t.input_tokens, t.cached_input_tokens, t.output_tokens, t.reasoning_output_tokens), (60, 30, 40, 10));
    assert_eq!(t.total_tokens, 140);
    let nested = r#"{"u":{"input":7,"non_reasoning_output_tokens":4,"reasoning_tokens":2}}"#;
    let t = token_totals(nested, "/u");
    assert_eq!((t.input_tokens, t.cached_input_tokens, t.output_tokens, t.reasoning_output_tokens), (7, 0, 4, 2));
    let negative = token_totals(r#"{"input_tokens":-5,"prompt_tokens":3,"output_tokens":1.5}"#, "");
    assert_eq!((negative.input_tokens, negative.output_tokens), (3, 0));
}

#[test]
fn project_identity_is_salted_and_path_insensitive() {
    let (key, name) = project_identity("C:/Work/Alpha", "salt");
    let (same, _) = project_identity("c:\\work\\alpha", "salt");
    let (other, _) = project_identity("c:\\work\\alpha", "pepper");
    assert_eq!(key, same);
    assert_ne!(key, other);
    assert_eq!(key.len(), 64);
    assert!(!key.contains("alpha"));
    assert_eq!(name, "Alpha");
}

#[test]
fn project_names_follow_windows_paths() {
    assert_eq!(project_identity("/home/user/proj/", "s").1, "proj");
    assert_eq!(project_identity("C:\\", "s").1, "Unknown project");
    assert_eq!(project_identity("C:foo", "s").1, "foo");
    assert_eq!(project_identity("alpha\\..", "s").1, "Unknown project");
    assert_eq!(project_identity("work\\alpha\\.", "s").1, "alpha");
    assert_eq!(project_identity("\\\\server\\share", "s").1, "Unknown project");
    assert_eq!(project_identity("\\\\server\\share\\repo", "s").1, "repo");
    assert_eq!(project_identity("", "s").1, "Unknown project");
}

#[test]
fn resume_point_follows_the_checkpoint() {
    let mut saved = SessionContext::default();
    saved.session_id = "s1".to_string();
    let (offset, ctx) = resume_point(10, saved, 50).unwrap();
    assert_eq!((offset, ctx.session_id.as_str()), (10, "s1"));
    let mut saved = SessionContext::default();
    saved.session_id = "s1".to_string();
    let (offset, ctx) = resume_point(80, saved, 50).unwrap();
    assert_eq!((offset, ctx.session_id.as_str()), (0, ""));
    assert!(resume_point(50, SessionContext::default(), 50).is_none());
    assert!(resume_point(7, SessionContext::default(), 0).is_none());
}

#[test]
fn chunks_parse_like_single_lines() {
    let lines: Vec<String> = vec![
        META.to_string(),
        "plain text".to_string(),
        r#"{"token_count": oops"#.to_string(),
        token_line("2026-07-16T10:01:00Z", r#"{"input_tokens":5,"output_tokens":3,"total_tokens":8}"#, None),
    ];
    let mut whole = SessionContext::default();
    let all = parse_chunk(&lines, &mut whole, "salt");
    assert_eq!(all.events.len(), 1);
    assert_eq!(all.malformed_lines, 1);
    assert_eq!(all.lines_without_event, 2);
    let mut resumed = SessionContext::default();
    let head = parse_chunk(&lines[..2].to_vec(), &mut resumed, "salt");
    let tail = parse_chunk(&lines[2..].to_vec(), &mut resumed, "salt");
    assert_eq!(head.events.len() + tail.events.len(), 1);
    assert_eq!(tail.events[0].event_id, all.events[0].event_id);
    assert_eq!(format!("{:?}", resumed), format!("{:?}", whole));
}

#[test]
fn sync_report_counts() {
    let mut report = SyncReport::started_at("now".to_string());
    report.count_file();
    report.count_chunk(2, 3);
    report.count_event(true);
    report.count_event(false);
    assert_eq!((report.files_scanned, report.events_inserted, report.events_skipped, report.parse_errors), (1, 1, 4, 2));
    assert_eq!(report.synced_at, "now");
}
