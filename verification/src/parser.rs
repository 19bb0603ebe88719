//! The metadata-only parser for Codex session JSONL lines.
//!
//! A line is looked at only when it carries one of the metadata markers
//! (`"token_count"`, `"session_meta"`, `"turn_context"`); any other line —
//! prompts, responses, tool output — is passed over without being parsed.

use vstd::prelude::*;

use crate::digest::{hex_encode, hex_lower, i64_le_bytes, join_bytes, le_bytes, sha256, sha256_digest, utf8_bytes};
use crate::json::{int_at, json_int, json_is_valid, json_parses, json_present, json_text, present_at, text_at};
use crate::text::{concat, contains, contains_seq, replace_char, replace_char_spec, str_eq, to_lowercase, unicode_lowercase, windows_file_name, windows_path_file_name};
use crate::tokens::{categories_spec, clamp_i64, delta_spec, fieldwise_le, fieldwise_nonneg, lemma_delta_restores_current, inclusive_spec, is_well_formed, min_i64, nonneg, sat_sub, usage_delta, zero_totals, TokenTotals};

verus! {

/// Per-file parser state: the session being read, its model and project,
/// and the last cumulative usage reading.
#[derive(Debug)]
pub struct SessionContext {
    pub session_id: String,
    pub model: String,
    pub timestamp: String,
    pub project_key: Option<String>,
    pub project_name: Option<String>,
    pub context_window: Option<i64>,
    pub cumulative_usage: TokenTotals,
}

/// A `SessionContext` with its strings taken as character sequences.
pub struct ContextView {
    pub session_id: Seq<char>,
    pub model: Seq<char>,
    pub timestamp: Seq<char>,
    pub project_key: Option<Seq<char>>,
    pub project_name: Option<Seq<char>>,
    pub context_window: Option<i64>,
    pub cumulative_usage: TokenTotals,
}

/// The characters of an optional string.
pub open spec fn opt_view(o: Option<String>) -> Option<Seq<char>> {
    match o {
        Some(s) => Some(s@),
        None => None,
    }
}

/// The characters of an optional string, or nothing.
pub open spec fn or_empty(o: Option<Seq<char>>) -> Seq<char> {
    match o {
        Some(s) => s,
        None => seq![],
    }
}

impl View for SessionContext {
    type V = ContextView;

    open spec fn view(&self) -> ContextView {
        ContextView {
            session_id: self.session_id@,
            model: self.model@,
            timestamp: self.timestamp@,
            project_key: opt_view(self.project_key),
            project_name: opt_view(self.project_name),
            context_window: self.context_window,
            cumulative_usage: self.cumulative_usage,
        }
    }
}

/// The state before any line of a file has been read.
pub open spec fn empty_context() -> ContextView {
    ContextView {
        session_id: seq![],
        model: seq![],
        timestamp: seq![],
        project_key: None,
        project_name: None,
        context_window: None,
        cumulative_usage: zero_totals(),
    }
}

impl Default for SessionContext {
    fn default() -> (c: Self)
        ensures
            c@ == empty_context(),
    {
        SessionContext {
            session_id: String::new(),
            model: String::new(),
            timestamp: String::new(),
            project_key: None,
            project_name: None,
            context_window: None,
            cumulative_usage: TokenTotals::default(),
        }
    }
}

/// One increment of token usage read from a session log.
#[derive(Debug)]
pub struct UsageEvent {
    pub event_id: String,
    pub session_id: String,
    pub timestamp: String,
    pub model: String,
    pub project_key: Option<String>,
    pub project_name: Option<String>,
    pub context_window: Option<i64>,
    pub totals: TokenTotals,
}

/// A `UsageEvent` with its strings taken as character sequences.
pub struct EventView {
    pub event_id: Seq<char>,
    pub session_id: Seq<char>,
    pub timestamp: Seq<char>,
    pub model: Seq<char>,
    pub project_key: Option<Seq<char>>,
    pub project_name: Option<Seq<char>>,
    pub context_window: Option<i64>,
    pub totals: TokenTotals,
}

impl View for UsageEvent {
    type V = EventView;

    open spec fn view(&self) -> EventView {
        EventView {
            event_id: self.event_id@,
            session_id: self.session_id@,
            timestamp: self.timestamp@,
            model: self.model@,
            project_key: opt_view(self.project_key),
            project_name: opt_view(self.project_name),
            context_window: self.context_window,
            totals: self.totals,
        }
    }
}

/// A line that carries a metadata marker but is not JSON.
#[derive(Debug, Clone, Copy, PartialEq, Eq)]
pub struct MalformedLine;

// ---------------------------------------------------------------------------
// Token counts inside a usage object

/// The count at `pointer`: its integer value, zero when it is missing, not
/// an `i64`, or negative.
pub open spec fn count_at(doc: Seq<char>, pointer: Seq<char>) -> i64 {
    match int_at(doc, pointer) {
        Some(v) => nonneg(v),
        None => 0,
    }
}

/// The first of two counts that is positive, else the second.
pub open spec fn pick(first: i64, fallback: i64) -> i64 {
    if first > 0 { first } else { fallback }
}

/// The counters a usage object may hold, each read from the first of its
/// accepted field names that gives a positive count.
pub struct TokenReadings {
    pub inclusive_input: i64,
    pub cached_input: i64,
    pub inclusive_output: i64,
    pub reasoning_output: i64,
    pub explicit_input: i64,
    pub explicit_output: i64,
}

/// The counters of the usage object at `base`.
pub open spec fn readings_at(doc: Seq<char>, base: Seq<char>) -> TokenReadings {
    TokenReadings {
        inclusive_input: pick(
            count_at(doc, base + "/input_tokens"@),
            pick(count_at(doc, base + "/prompt_tokens"@), count_at(doc, base + "/input"@)),
        ),
        cached_input: pick(
            count_at(doc, base + "/cached_input_tokens"@),
            pick(
                count_at(doc, base + "/cached_tokens"@),
                pick(
                    count_at(doc, base + "/input_tokens_details/cached_tokens"@),
                    count_at(doc, base + "/prompt_tokens_details/cached_tokens"@),
                ),
            ),
        ),
        inclusive_output: pick(
            count_at(doc, base + "/output_tokens"@),
            pick(count_at(doc, base + "/completion_tokens"@), count_at(doc, base + "/output"@)),
        ),
        reasoning_output: pick(
            count_at(doc, base + "/reasoning_output_tokens"@),
            pick(
                count_at(doc, base + "/reasoning_tokens"@),
                pick(
                    count_at(doc, base + "/output_tokens_details/reasoning_tokens"@),
                    count_at(doc, base + "/completion_tokens_details/reasoning_tokens"@),
                ),
            ),
        ),
        explicit_input: pick(
            count_at(doc, base + "/uncached_input_tokens"@),
            count_at(doc, base + "/non_cached_input_tokens"@),
        ),
        explicit_output: pick(
            count_at(doc, base + "/non_reasoning_output_tokens"@),
            count_at(doc, base + "/visible_output_tokens"@),
        ),
    }
}

/// The larger of two counts.
pub open spec fn max_i64(a: i64, b: i64) -> i64 {
    if a >= b { a } else { b }
}

/// Totals from the counters: without explicit uncached-input or
/// visible-output counts the inclusive counts are split; with them, the
/// explicit counts are used as the disjoint categories.
pub open spec fn totals_from_readings(r: TokenReadings) -> TokenTotals {
    if r.explicit_input == 0 && r.explicit_output == 0 {
        inclusive_spec(r.inclusive_input, r.cached_input, r.inclusive_output, r.reasoning_output)
    } else {
        categories_spec(
            if r.explicit_input > 0 {
                r.explicit_input
            } else {
                clamp_i64(r.inclusive_input - min_i64(r.cached_input, r.inclusive_input))
            },
            min_i64(r.cached_input, max_i64(r.inclusive_input, r.cached_input)),
            if r.explicit_output > 0 {
                r.explicit_output
            } else {
                clamp_i64(r.inclusive_output - min_i64(r.reasoning_output, r.inclusive_output))
            },
            min_i64(r.reasoning_output, max_i64(r.inclusive_output, r.reasoning_output)),
        )
    }
}

/// The totals of the usage object at `base`.
pub open spec fn token_totals_spec(doc: Seq<char>, base: Seq<char>) -> TokenTotals {
    totals_from_readings(readings_at(doc, base))
}

fn count(doc: &str, base: &str, field: &str) -> (v: i64)
    requires
        json_parses(doc@),
    ensures
        v == count_at(doc@, base@ + field@),
{
    let pointer = concat(base, field);
    match json_int(doc, pointer.as_str()) {
        Some(v) => if v < 0 { 0 } else { v },
        None => 0,
    }
}

fn pick_exec(first: i64, fallback: i64) -> (v: i64)
    ensures
        v == pick(first, fallback),
{
    if first > 0 { first } else { fallback }
}

/// The token totals of the usage object that the JSON pointer `base` reaches
/// in the document `doc` (`""` for the whole document).
pub fn token_totals(doc: &str, base: &str) -> (t: TokenTotals)
    requires
        json_parses(doc@),
    ensures
        t == token_totals_spec(doc@, base@),
        is_well_formed(t),
{
    let inclusive_input = pick_exec(
        count(doc, base, "/input_tokens"),
        pick_exec(count(doc, base, "/prompt_tokens"), count(doc, base, "/input")),
    );
    let cached_input = pick_exec(
        count(doc, base, "/cached_input_tokens"),
        pick_exec(
            count(doc, base, "/cached_tokens"),
            pick_exec(
                count(doc, base, "/input_tokens_details/cached_tokens"),
                count(doc, base, "/prompt_tokens_details/cached_tokens"),
            ),
        ),
    );
    let inclusive_output = pick_exec(
        count(doc, base, "/output_tokens"),
        pick_exec(count(doc, base, "/completion_tokens"), count(doc, base, "/output")),
    );
    let reasoning_output = pick_exec(
        count(doc, base, "/reasoning_output_tokens"),
        pick_exec(
            count(doc, base, "/reasoning_tokens"),
            pick_exec(
                count(doc, base, "/output_tokens_details/reasoning_tokens"),
                count(doc, base, "/completion_tokens_details/reasoning_tokens"),
            ),
        ),
    );
    let explicit_input = pick_exec(
        count(doc, base, "/uncached_input_tokens"),
        count(doc, base, "/non_cached_input_tokens"),
    );
    let explicit_output = pick_exec(
        count(doc, base, "/non_reasoning_output_tokens"),
        count(doc, base, "/visible_output_tokens"),
    );
    if explicit_input == 0 && explicit_output == 0 {
        return TokenTotals::from_inclusive_counts(
            inclusive_input,
            cached_input,
            inclusive_output,
            reasoning_output,
        );
    }
    let capped_cached = if cached_input < inclusive_input { cached_input } else { inclusive_input };
    let capped_reasoning = if reasoning_output < inclusive_output {
        reasoning_output
    } else {
        inclusive_output
    };
    let widest_input = if inclusive_input >= cached_input { inclusive_input } else { cached_input };
    let widest_output = if inclusive_output >= reasoning_output {
        inclusive_output
    } else {
        reasoning_output
    };
    TokenTotals::from_categories(
        if explicit_input > 0 {
            explicit_input
        } else {
            sat_sub(inclusive_input, capped_cached)
        },
        if cached_input < widest_input { cached_input } else { widest_input },
        if explicit_output > 0 {
            explicit_output
        } else {
            sat_sub(inclusive_output, capped_reasoning)
        },
        if reasoning_output < widest_output { reasoning_output } else { widest_output },
    )
}

// ---------------------------------------------------------------------------
// Project identity and event identity

/// The key under which a project is stored: lowercase hex of the SHA-256 of
/// the salt followed by the project path with `/` turned into `\` and
/// lowercased. The path itself is never stored.
pub open spec fn project_key_spec(cwd: Seq<char>, salt: Seq<char>) -> Seq<char> {
    hex_lower(
        sha256(
            vstd::utf8::encode_utf8(salt) + vstd::utf8::encode_utf8(
                unicode_lowercase(replace_char_spec(cwd, '/', '\\')),
            ),
        ),
    )
}

/// The name shown for a project: the last component of its path, or
/// `Unknown project` when the path has none.
pub open spec fn project_name_spec(cwd: Seq<char>) -> Seq<char> {
    match windows_file_name(cwd) {
        Some(name) => if name.len() > 0 { name } else { "Unknown project"@ },
        None => "Unknown project"@,
    }
}

/// The salted key and the display name of the project at `cwd`.
pub fn project_identity(cwd: &str, salt: &str) -> (r: (String, String))
    ensures
        r.0@ == project_key_spec(cwd@, salt@),
        r.1@ == project_name_spec(cwd@),
{
    let replaced = replace_char(cwd, '/', '\\');
    let normalized = to_lowercase(replaced.as_str());
    let data = join_bytes(utf8_bytes(salt), utf8_bytes(normalized.as_str()));
    let key = hex_encode(sha256_digest(data.as_slice()).as_slice());
    let name = match windows_path_file_name(cwd) {
        Some(name) => if !name.as_str().is_empty() {
            name
        } else {
            "Unknown project".to_owned()
        },
        None => "Unknown project".to_owned(),
    };
    (key, name)
}

/// The identifier of a usage event: lowercase hex of the SHA-256 of the
/// session id, the line's timestamp, and the little-endian bytes of the
/// total and input counts. Replaying the same line gives the same id.
pub open spec fn event_id_spec(session_id: Seq<char>, timestamp: Seq<char>, totals: TokenTotals) -> Seq<char> {
    hex_lower(
        sha256(
            vstd::utf8::encode_utf8(session_id) + vstd::utf8::encode_utf8(timestamp)
                + i64_le_bytes(totals.total_tokens) + i64_le_bytes(totals.input_tokens),
        ),
    )
}

fn event_id(session_id: &str, timestamp: &str, totals: &TokenTotals) -> (id: String)
    ensures
        id@ == event_id_spec(session_id@, timestamp@, *totals),
{
    let data = join_bytes(
        join_bytes(
            join_bytes(utf8_bytes(session_id), utf8_bytes(timestamp)),
            le_bytes(totals.total_tokens),
        ),
        le_bytes(totals.input_tokens),
    );
    hex_encode(sha256_digest(data.as_slice()).as_slice())
}

// ---------------------------------------------------------------------------
// Line classification and context updates

/// The line carries one of the three metadata markers.
pub open spec fn has_metadata_marker(line: Seq<char>) -> bool {
    contains_seq(line, "\"token_count\""@) || contains_seq(line, "\"session_meta\""@)
        || contains_seq(line, "\"turn_context\""@)
}

/// The record's timestamp: the top-level one, else the payload's, else empty.
pub open spec fn line_timestamp(doc: Seq<char>) -> Seq<char> {
    match text_at(doc, "/timestamp"@) {
        Some(t) => t,
        None => or_empty(text_at(doc, "/payload/timestamp"@)),
    }
}

/// The context after a `session_meta` record: a new session id, timestamp,
/// model and context window; the project changes only when the record names
/// a working directory.
pub open spec fn session_meta_spec(doc: Seq<char>, ctx: ContextView, salt: Seq<char>) -> ContextView {
    let session_id = match text_at(doc, "/payload/id"@) {
        Some(id) => id,
        None => or_empty(text_at(doc, "/payload/session_id"@)),
    };
    let updated = ContextView {
        session_id: session_id,
        timestamp: line_timestamp(doc),
        model: or_empty(text_at(doc, "/payload/model"@)),
        context_window: int_at(doc, "/payload/context_window"@),
        ..ctx
    };
    match text_at(doc, "/payload/cwd"@) {
        Some(cwd) => ContextView {
            project_key: Some(project_key_spec(cwd, salt)),
            project_name: Some(project_name_spec(cwd)),
            ..updated
        },
        None => updated,
    }
}

/// The context after a `turn_context` record: the model and the context
/// window change when the record gives them.
pub open spec fn turn_context_spec(doc: Seq<char>, ctx: ContextView) -> ContextView {
    ContextView {
        model: match text_at(doc, "/payload/model"@) {
            Some(m) => m,
            None => ctx.model,
        },
        context_window: match int_at(doc, "/payload/model_context_window"@) {
            Some(w) => Some(w),
            None => ctx.context_window,
        },
        ..ctx
    }
}

/// The usage object that describes the last turn, if the record has one.
pub open spec fn last_usage_base(doc: Seq<char>) -> Option<Seq<char>> {
    if present_at(doc, "/payload/info/last_token_usage"@) {
        Some("/payload/info/last_token_usage"@)
    } else if present_at(doc, "/payload/usage"@) {
        Some("/payload/usage"@)
    } else {
        None
    }
}

/// The totals of the last turn; zero when the record has no such object.
pub open spec fn last_usage_spec(doc: Seq<char>) -> TokenTotals {
    match last_usage_base(doc) {
        Some(base) => token_totals_spec(doc, base),
        None => zero_totals(),
    }
}

/// What parsing one line gives.
pub enum LineOutcome {
    /// The line has a metadata marker but is not JSON.
    Malformed,
    /// The line yields no usage event.
    NoEvent,
    /// The line yields this usage event.
    Event(EventView),
}

/// A `token_count` record: the usage it adds and the context after it.
///
/// With a cumulative reading, the usage is the difference from the previous
/// reading (or the last-turn usage when the cumulative count went down), and
/// a zero cumulative reading only resets the context. Without one, the
/// last-turn usage is taken as it is. Empty usage and records without a
/// session id give no event.
pub open spec fn token_count_spec(doc: Seq<char>, ctx: ContextView, timestamp: Seq<char>) -> (LineOutcome, ContextView) {
    let last = last_usage_spec(doc);
    let has_cumulative = present_at(doc, "/payload/info/total_token_usage"@);
    let current = token_totals_spec(doc, "/payload/info/total_token_usage"@);
    if has_cumulative && current.total_tokens == 0 {
        (LineOutcome::NoEvent, ContextView { cumulative_usage: current, ..ctx })
    } else {
        let totals = if !has_cumulative {
            last
        } else if ctx.cumulative_usage.total_tokens == 0 || current.total_tokens
            >= ctx.cumulative_usage.total_tokens {
            delta_spec(current, ctx.cumulative_usage)
        } else {
            last
        };
        let next = if has_cumulative {
            ContextView { cumulative_usage: current, ..ctx }
        } else {
            ctx
        };
        let session_id = match text_at(doc, "/session_id"@) {
            Some(id) => id,
            None => next.session_id,
        };
        if totals.total_tokens == 0 && totals.input_tokens == 0 && totals.output_tokens == 0 {
            (LineOutcome::NoEvent, next)
        } else if session_id.len() == 0 {
            (LineOutcome::NoEvent, next)
        } else {
            let event = EventView {
                event_id: event_id_spec(session_id, timestamp, totals),
                session_id: session_id,
                timestamp: if timestamp.len() == 0 { next.timestamp } else { timestamp },
                model: next.model,
                project_key: next.project_key,
                project_name: next.project_name,
                context_window: match int_at(doc, "/payload/info/model_context_window"@) {
                    Some(w) => Some(w),
                    None => next.context_window,
                },
                totals: totals,
            };
            (LineOutcome::Event(event), next)
        }
    }
}

/// What one line gives and the context after it.
pub open spec fn parse_line_spec(line: Seq<char>, ctx: ContextView, salt: Seq<char>) -> (LineOutcome, ContextView) {
    if !has_metadata_marker(line) {
        (LineOutcome::NoEvent, ctx)
    } else if !json_parses(line) {
        (LineOutcome::Malformed, ctx)
    } else {
        let kind = or_empty(text_at(line, "/type"@));
        let timestamp = line_timestamp(line);
        if kind == "session_meta"@ {
            (LineOutcome::NoEvent, session_meta_spec(line, ctx, salt))
        } else if kind == "turn_context"@ {
            (LineOutcome::NoEvent, turn_context_spec(line, ctx))
        } else if kind != "event_msg"@ || text_at(line, "/payload/type"@) != Some("token_count"@) {
            (LineOutcome::NoEvent, ctx)
        } else {
            token_count_spec(line, ctx, timestamp)
        }
    }
}

/// The result of `parse_line` matches a spec outcome.
pub open spec fn result_matches(r: Result<Option<UsageEvent>, MalformedLine>, outcome: LineOutcome) -> bool {
    match (r, outcome) {
        (Err(_), LineOutcome::Malformed) => true,
        (Ok(None), LineOutcome::NoEvent) => true,
        (Ok(Some(e)), LineOutcome::Event(v)) => e@ == v,
        _ => false,
    }
}

fn text_or_empty(doc: &str, pointer: &str) -> (s: String)
    requires
        json_parses(doc@),
    ensures
        s@ == or_empty(text_at(doc@, pointer@)),
{
    match json_text(doc, pointer) {
        Some(s) => s,
        None => String::new(),
    }
}

fn timestamp_of(doc: &str) -> (t: String)
    requires
        json_parses(doc@),
    ensures
        t@ == line_timestamp(doc@),
{
    match json_text(doc, "/timestamp") {
        Some(t) => t,
        None => text_or_empty(doc, "/payload/timestamp"),
    }
}

fn apply_session_meta(doc: &str, context: &mut SessionContext, salt: &str, timestamp: String)
    requires
        json_parses(doc@),
        timestamp@ == line_timestamp(doc@),
    ensures
        final(context)@ == session_meta_spec(doc@, old(context)@, salt@),
{
    context.session_id = match json_text(doc, "/payload/id") {
        Some(id) => id,
        None => text_or_empty(doc, "/payload/session_id"),
    };
    context.timestamp = timestamp;
    context.model = text_or_empty(doc, "/payload/model");
    context.context_window = json_int(doc, "/payload/context_window");
    if let Some(cwd) = json_text(doc, "/payload/cwd") {
        let (key, name) = project_identity(cwd.as_str(), salt);
        context.project_key = Some(key);
        context.project_name = Some(name);
    }
}

fn apply_turn_context(doc: &str, context: &mut SessionContext)
    requires
        json_parses(doc@),
    ensures
        final(context)@ == turn_context_spec(doc@, old(context)@),
{
    if let Some(model) = json_text(doc, "/payload/model") {
        context.model = model;
    }
    if let Some(window) = json_int(doc, "/payload/model_context_window") {
        context.context_window = Some(window);
    }
}

fn last_usage(doc: &str) -> (t: TokenTotals)
    requires
        json_parses(doc@),
    ensures
        t == last_usage_spec(doc@),
{
    if json_present(doc, "/payload/info/last_token_usage") {
        token_totals(doc, "/payload/info/last_token_usage")
    } else if json_present(doc, "/payload/usage") {
        token_totals(doc, "/payload/usage")
    } else {
        TokenTotals::default()
    }
}

fn clone_opt(o: &Option<String>) -> (r: Option<String>)
    ensures
        opt_view(r) == opt_view(*o),
{
    match o {
        Some(s) => Some(s.clone()),
        None => None,
    }
}

fn token_count_event(doc: &str, context: &mut SessionContext, timestamp: String) -> (r: Result<Option<UsageEvent>, MalformedLine>)
    requires
        json_parses(doc@),
        timestamp@ == line_timestamp(doc@),
    ensures
        ({
            let (outcome, next) = token_count_spec(doc@, old(context)@, timestamp@);
            result_matches(r, outcome) && final(context)@ == next
        }),
{
    let last = last_usage(doc);
    let totals = if json_present(doc, "/payload/info/total_token_usage") {
        let current = token_totals(doc, "/payload/info/total_token_usage");
        if current.total_tokens == 0 {
            context.cumulative_usage = current;
            return Ok(None);
        }
        let delta = if context.cumulative_usage.total_tokens == 0 || current.total_tokens
            >= context.cumulative_usage.total_tokens {
            usage_delta(&current, &context.cumulative_usage)
        } else {
            last
        };
        context.cumulative_usage = current;
        delta
    } else {
        last
    };
    if totals.total_tokens == 0 && totals.input_tokens == 0 && totals.output_tokens == 0 {
        return Ok(None);
    }
    let session_id = match json_text(doc, "/session_id") {
        Some(id) => id,
        None => context.session_id.clone(),
    };
    if session_id.as_str().is_empty() {
        return Ok(None);
    }
    let context_window = match json_int(doc, "/payload/info/model_context_window") {
        Some(w) => Some(w),
        None => context.context_window,
    };
    let event_id = event_id(session_id.as_str(), timestamp.as_str(), &totals);
    let event_timestamp = if timestamp.as_str().is_empty() {
        context.timestamp.clone()
    } else {
        timestamp
    };
    Ok(
        Some(
            UsageEvent {
                event_id,
                session_id,
                timestamp: event_timestamp,
                model: context.model.clone(),
                project_key: clone_opt(&context.project_key),
                project_name: clone_opt(&context.project_name),
                context_window,
                totals,
            },
        ),
    )
}

/// Parses one JSONL line of a session log, updating `context`, and returns
/// the usage event the line adds, if any. Lines without a metadata marker are
/// not parsed at all; a marked line that is not JSON is an error.
pub fn parse_line(
    line: &str,
    source_key: &str,
    byte_offset: u64,
    context: &mut SessionContext,
    salt: &str,
) -> (r: Result<Option<UsageEvent>, MalformedLine>)
    ensures
        ({
            let (outcome, next) = parse_line_spec(line@, old(context)@, salt@);
            result_matches(r, outcome) && final(context)@ == next
        }),
{
    if !contains(line, "\"token_count\"") && !contains(line, "\"session_meta\"") && !contains(
        line,
        "\"turn_context\"",
    ) {
        return Ok(None);
    }
    if !json_is_valid(line) {
        return Err(MalformedLine);
    }
    let kind = text_or_empty(line, "/type");
    let timestamp = timestamp_of(line);
    if str_eq(kind.as_str(), "session_meta") {
        apply_session_meta(line, context, salt, timestamp);
        return Ok(None);
    }
    if str_eq(kind.as_str(), "turn_context") {
        apply_turn_context(line, context);
        return Ok(None);
    }
    let is_token_count = match json_text(line, "/payload/type") {
        Some(t) => str_eq(t.as_str(), "token_count"),
        None => false,
    };
    if !str_eq(kind.as_str(), "event_msg") || !is_token_count {
        return Ok(None);
    }
    token_count_event(line, context, timestamp)
}

// ---------------------------------------------------------------------------
// Laws

/// Lines without a metadata marker — prompts, responses, tool calls — are
/// never parsed: they give no event and leave the context as it was.
pub proof fn lemma_content_lines_are_ignored(line: Seq<char>, ctx: ContextView, salt: Seq<char>)
    requires
        !has_metadata_marker(line),
    ensures
        parse_line_spec(line, ctx, salt) == (LineOutcome::NoEvent, ctx),
{
}

/// A zero cumulative reading (the initialization record that Codex writes)
/// gives no event; it only becomes the new baseline.
pub proof fn lemma_zero_cumulative_is_baseline(doc: Seq<char>, ctx: ContextView, timestamp: Seq<char>)
    requires
        present_at(doc, "/payload/info/total_token_usage"@),
        token_totals_spec(doc, "/payload/info/total_token_usage"@).total_tokens == 0,
    ensures
        token_count_spec(doc, ctx, timestamp) == (
            LineOutcome::NoEvent,
            ContextView { cumulative_usage: token_totals_spec(doc, "/payload/info/total_token_usage"@), ..ctx },
        ),
{
}

/// A cumulative reading that did not go down yields exactly the growth since
/// the previous reading: the previous reading plus the event's usage is the
/// new reading, field by field, and the new reading becomes the baseline.
pub proof fn lemma_cumulative_readings_yield_deltas(doc: Seq<char>, ctx: ContextView, timestamp: Seq<char>)
    requires
        present_at(doc, "/payload/info/total_token_usage"@),
        fieldwise_nonneg(ctx.cumulative_usage),
        fieldwise_le(ctx.cumulative_usage, token_totals_spec(doc, "/payload/info/total_token_usage"@)),
    ensures
        ({
            let current = token_totals_spec(doc, "/payload/info/total_token_usage"@);
            let (outcome, next) = token_count_spec(doc, ctx, timestamp);
            &&& next.cumulative_usage == current
            &&& outcome matches LineOutcome::Event(e) ==> {
                &&& e.totals == delta_spec(current, ctx.cumulative_usage)
                &&& ctx.cumulative_usage.total_tokens + e.totals.total_tokens == current.total_tokens
                &&& ctx.cumulative_usage.input_tokens + e.totals.input_tokens == current.input_tokens
                &&& ctx.cumulative_usage.output_tokens + e.totals.output_tokens == current.output_tokens
            }
        }),
{
    let current = token_totals_spec(doc, "/payload/info/total_token_usage"@);
    lemma_delta_restores_current(current, ctx.cumulative_usage);
}

/// The event a line yields identifies itself: its id is the hash of its
/// session id, the line's timestamp and its counts, so two lines that record
/// the same counts for the same session at the same instant get the same id,
/// and storage keeps only one of them.
pub proof fn lemma_replay_gives_same_event(
    line: Seq<char>,
    ctx: ContextView,
    other_line: Seq<char>,
    other_ctx: ContextView,
    salt: Seq<char>,
)
    ensures
        parse_line_spec(line, ctx, salt).0 matches LineOutcome::Event(e) ==> e.event_id
            == event_id_spec(e.session_id, line_timestamp(line), e.totals),
        ({
            let first = parse_line_spec(line, ctx, salt).0;
            let second = parse_line_spec(other_line, other_ctx, salt).0;
            first matches LineOutcome::Event(a) ==> (second matches LineOutcome::Event(b) ==> (
            a.session_id == b.session_id && line_timestamp(line) == line_timestamp(other_line) && a.totals
                == b.totals ==> a.event_id == b.event_id))
        }),
{
}

/// An event belongs to the session and project of the context it was read
/// in: its project key and name, model and session are those of the context
/// after the line, so the event joins the project row stored for it.
pub proof fn lemma_event_carries_context_project(line: Seq<char>, ctx: ContextView, salt: Seq<char>)
    ensures
        ({
            let (outcome, next) = parse_line_spec(line, ctx, salt);
            outcome matches LineOutcome::Event(e) ==> {
                &&& e.project_key == next.project_key
                &&& e.project_name == next.project_name
                &&& e.model == next.model
                &&& next.project_key == ctx.project_key
                &&& next.project_name == ctx.project_name
            }
        }),
{
}

/// After a `session_meta` record with a working directory, every event is
/// filed under the salted hash of that directory as its project key and the
/// directory's last component as its project name.
pub proof fn lemma_event_carries_session_project(
    meta: Seq<char>,
    line: Seq<char>,
    ctx: ContextView,
    salt: Seq<char>,
    cwd: Seq<char>,
)
    requires
        has_metadata_marker(meta),
        json_parses(meta),
        text_at(meta, "/type"@) == Some("session_meta"@),
        text_at(meta, "/payload/cwd"@) == Some(cwd),
    ensures
        ({
            let after_meta = parse_line_spec(meta, ctx, salt).1;
            &&& after_meta.project_key == Some(project_key_spec(cwd, salt))
            &&& after_meta.project_name == Some(project_name_spec(cwd))
            &&& parse_line_spec(line, after_meta, salt).0 matches LineOutcome::Event(e) ==> {
                &&& e.project_key == Some(project_key_spec(cwd, salt))
                &&& e.project_name == Some(project_name_spec(cwd))
            }
        }),
{
    lemma_event_carries_context_project(line, parse_line_spec(meta, ctx, salt).1, salt);
}

/// Cached input reported in the Responses style, as
/// `input_tokens_details.cached_tokens` (and under no other cached-count
/// name), is taken out of the input count: with `n` input tokens of which
/// `c` were cached (`0 < c <= n`) and no explicit uncached or visible counts,
/// the totals hold `c` cached and `n - c` uncached input tokens.
pub proof fn lemma_cached_input_from_details(doc: Seq<char>, base: Seq<char>, n: i64, c: i64)
    requires
        0 < c <= n,
        count_at(doc, base + "/input_tokens"@) == n,
        count_at(doc, base + "/cached_input_tokens"@) == 0,
        count_at(doc, base + "/cached_tokens"@) == 0,
        count_at(doc, base + "/input_tokens_details/cached_tokens"@) == c,
        count_at(doc, base + "/uncached_input_tokens"@) == 0,
        count_at(doc, base + "/non_cached_input_tokens"@) == 0,
        count_at(doc, base + "/non_reasoning_output_tokens"@) == 0,
        count_at(doc, base + "/visible_output_tokens"@) == 0,
    ensures
        token_totals_spec(doc, base).cached_input_tokens == c,
        token_totals_spec(doc, base).input_tokens == n - c,
{
}

/// The events of a sequence of lines read one after another from `ctx`,
/// and the context after the last one; lines that are not JSON are counted
/// as errors and skipped.
pub open spec fn parse_lines_spec(lines: Seq<Seq<char>>, ctx: ContextView, salt: Seq<char>) -> (Seq<EventView>, ContextView)
    decreases lines.len(),
{
    if lines.len() == 0 {
        (seq![], ctx)
    } else {
        let (outcome, next) = parse_line_spec(lines[0], ctx, salt);
        let (rest, last) = parse_lines_spec(lines.drop_first(), next, salt);
        match outcome {
            LineOutcome::Event(e) => (seq![e] + rest, last),
            _ => (rest, last),
        }
    }
}

/// Reading is incremental: reading a file in two parts — the second part
/// resumed from the context saved after the first — yields the same events
/// and the same final context as reading it in one go.
pub proof fn lemma_resumed_parse_matches_full_parse(
    first: Seq<Seq<char>>,
    second: Seq<Seq<char>>,
    ctx: ContextView,
    salt: Seq<char>,
)
    ensures
        ({
            let (events_first, saved) = parse_lines_spec(first, ctx, salt);
            let (events_second, last) = parse_lines_spec(second, saved, salt);
            parse_lines_spec(first + second, ctx, salt) == (events_first + events_second, last)
        }),
    decreases first.len(),
{
    if first.len() == 0 {
        assert(first + second =~= second);
        let (events_second, last) = parse_lines_spec(second, ctx, salt);
        assert(Seq::<EventView>::empty() + events_second =~= events_second);
    } else {
        let (outcome, next) = parse_line_spec(first[0], ctx, salt);
        assert((first + second).drop_first() =~= first.drop_first() + second);
        assert((first + second)[0] == first[0]);
        lemma_resumed_parse_matches_full_parse(first.drop_first(), second, next, salt);
        let (events_tail, saved) = parse_lines_spec(first.drop_first(), next, salt);
        let (events_second, last) = parse_lines_spec(second, saved, salt);
        match outcome {
            LineOutcome::Event(e) => {
                assert(seq![e] + (events_tail + events_second) =~= (seq![e] + events_tail)
                    + events_second);
            },
            _ => {},
        }
    }
}

} // verus!
