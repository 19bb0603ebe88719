//! Native texts of the tray menu and notifications in the two supported
//! languages.

use vstd::prelude::*;

use crate::text::{ascii_lower, concat, decimal, format_decimal, to_ascii_lower};

verus! {

/// Simplified Chinese.
pub const ZH_CN: &'static str = "zh-CN";

/// English.
pub const EN_US: &'static str = "en-US";

/// A language tag names Chinese when it starts with `zh`, ignoring ASCII
/// case.
pub open spec fn is_chinese_tag(language: Seq<char>) -> bool {
    language.len() >= 2 && ascii_lower(language[0]) == 'z' && ascii_lower(language[1]) == 'h'
}

/// The supported language for a tag: Chinese tags give `zh-CN`, every other
/// tag gives `en-US`.
pub open spec fn normalize_spec(language: Seq<char>) -> Seq<char> {
    if is_chinese_tag(language) { ZH_CN@ } else { EN_US@ }
}

/// Whether a language tag names Chinese.
pub fn is_chinese(language: &str) -> (r: bool)
    ensures
        r == is_chinese_tag(language@),
{
    let n = language.unicode_len();
    if n >= 2 {
        let first = to_ascii_lower(language.get_char(0));
        let second = to_ascii_lower(language.get_char(1));
        first == 'z' && second == 'h'
    } else {
        false
    }
}

/// Maps any language tag to a supported language.
pub fn normalize_language(language: &str) -> (r: &'static str)
    ensures
        r@ == normalize_spec(language@),
{
    if is_chinese(language) { ZH_CN } else { EN_US }
}

/// Normalizing twice is normalizing once: both supported tags map to
/// themselves.
pub proof fn lemma_normalize_is_idempotent(language: Seq<char>)
    ensures
        normalize_spec(normalize_spec(language)) == normalize_spec(language),
{
    reveal_strlit("zh-CN");
    reveal_strlit("en-US");
}

/// The language of the system locale, falling back to English.
pub open spec fn locale_language(locale: Option<Seq<char>>) -> Seq<char> {
    match locale {
        Some(l) => normalize_spec(l),
        None => EN_US@,
    }
}

/// The system's preferred locale tag.
///
/// Trusted: calls `sys_locale::get_locale`, which reads the operating
/// system's settings; nothing is claimed of what it returns.
#[verifier::external_body]
fn system_locale() -> (locale: Option<String>) {
    sys_locale::get_locale()
}

/// The supported language for a locale tag, English when there is none.
pub fn language_for_locale(locale: Option<&str>) -> (r: String)
    ensures
        r@ == locale_language(match locale {
            Some(l) => Some(l@),
            None => None,
        }),
{
    match locale {
        Some(l) => normalize_language(l).to_owned(),
        None => EN_US.to_owned(),
    }
}

/// The supported language of the system locale.
pub fn system_language() -> (r: String)
    ensures
        r@ == ZH_CN@ || r@ == EN_US@,
{
    let locale = system_locale();
    match locale {
        Some(l) => language_for_locale(Some(l.as_str())),
        None => language_for_locale(None),
    }
}

/// The tray text for `key` in the language `language` normalizes to; an
/// unknown key gives the application name.
pub open spec fn tray_text_spec(language: Seq<char>, key: Seq<char>) -> Seq<char> {
    let zh = is_chinese_tag(language);
    if zh && key == "open"@ {
        "打开窗口"@
    } else if zh && key == "settings"@ {
        "设置"@
    } else if zh && key == "floating_window"@ {
        "悬浮窗"@
    } else if zh && key == "pause_sync"@ {
        "暂停同步"@
    } else if zh && key == "resume_sync"@ {
        "恢复同步"@
    } else if zh && key == "exit"@ {
        "退出"@
    } else if zh && key == "today"@ {
        "今日"@
    } else if key == "open"@ {
        "Open"@
    } else if key == "settings"@ {
        "Settings"@
    } else if key == "floating_window"@ {
        "Floating Window"@
    } else if key == "pause_sync"@ {
        "Pause Sync"@
    } else if key == "resume_sync"@ {
        "Resume Sync"@
    } else if key == "exit"@ {
        "Exit"@
    } else if key == "today"@ {
        "Today"@
    } else {
        "Codex Token Monitor"@
    }
}

/// The text of a tray item or tooltip label.
pub fn tray_text(language: &str, key: &str) -> (r: &'static str)
    ensures
        r@ == tray_text_spec(language@, key@),
{
    let zh = is_chinese(language);
    if zh && crate::text::str_eq(key, "open") {
        "打开窗口"
    } else if zh && crate::text::str_eq(key, "settings") {
        "设置"
    } else if zh && crate::text::str_eq(key, "floating_window") {
        "悬浮窗"
    } else if zh && crate::text::str_eq(key, "pause_sync") {
        "暂停同步"
    } else if zh && crate::text::str_eq(key, "resume_sync") {
        "恢复同步"
    } else if zh && crate::text::str_eq(key, "exit") {
        "退出"
    } else if zh && crate::text::str_eq(key, "today") {
        "今日"
    } else if crate::text::str_eq(key, "open") {
        "Open"
    } else if crate::text::str_eq(key, "settings") {
        "Settings"
    } else if crate::text::str_eq(key, "floating_window") {
        "Floating Window"
    } else if crate::text::str_eq(key, "pause_sync") {
        "Pause Sync"
    } else if crate::text::str_eq(key, "resume_sync") {
        "Resume Sync"
    } else if crate::text::str_eq(key, "exit") {
        "Exit"
    } else if crate::text::str_eq(key, "today") {
        "Today"
    } else {
        "Codex Token Monitor"
    }
}

/// The tray key of the pause item: resume while paused, pause otherwise.
pub fn pause_menu_key(paused: bool) -> (k: &'static str)
    ensures
        k@ == if paused { "resume_sync"@ } else { "pause_sync"@ },
{
    if paused { "resume_sync" } else { "pause_sync" }
}

/// The native texts depend on the language only through the supported
/// language it normalizes to.
pub proof fn lemma_texts_follow_normalized_language(language: Seq<char>, key: Seq<char>, threshold: int)
    ensures
        tray_text_spec(normalize_spec(language), key) == tray_text_spec(language, key),
        quota_alert_spec(normalize_spec(language), threshold) == quota_alert_spec(language, threshold),
{
    reveal_strlit("zh-CN");
    reveal_strlit("en-US");
}

/// The daily-budget notification for a threshold percentage.
pub open spec fn quota_alert_spec(language: Seq<char>, threshold: int) -> Seq<char> {
    if is_chinese_tag(language) {
        "Codex Token 用量已达到每日预算的 "@ + decimal(threshold) + "%"@
    } else {
        "Codex token usage reached "@ + decimal(threshold) + "% of the daily budget"@
    }
}

/// The notification sent when today's usage reaches `threshold` percent of
/// the daily budget.
pub fn quota_alert(language: &str, threshold: i64) -> (r: String)
    ensures
        r@ == quota_alert_spec(language@, threshold as int),
{
    let zh = is_chinese(language);
    let number = format_decimal(threshold);
    if zh {
        let head = concat("Codex Token 用量已达到每日预算的 ", number.as_str());
        concat(head.as_str(), "%")
    } else {
        let head = concat("Codex token usage reached ", number.as_str());
        concat(head.as_str(), "% of the daily budget")
    }
}

} // verus!
