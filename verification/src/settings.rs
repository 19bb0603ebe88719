//! Validation of the settings the user saves.

use vstd::prelude::*;

use crate::i18n::{EN_US, ZH_CN};
use crate::text::str_eq;

verus! {

/// Why a settings record was refused.
#[derive(Clone, Copy, Debug, PartialEq, Eq, Structural)]
pub enum SettingsError {
    RefreshInterval,
    Theme,
    Language,
    FloatingOpacity,
    FloatingMode,
    NegativeLimit,
    NotCodexHome,
}

/// The message shown for a refused setting.
pub open spec fn settings_message_spec(e: SettingsError) -> Seq<char> {
    match e {
        SettingsError::RefreshInterval => "Refresh interval must be 1, 5, 10, or 30 seconds"@,
        SettingsError::Theme => "Unknown theme"@,
        SettingsError::Language => "Unknown language"@,
        SettingsError::FloatingOpacity => "Floating opacity must be between 0.2 and 1.0"@,
        SettingsError::FloatingMode => "Unknown floating window mode"@,
        SettingsError::NegativeLimit => "Budgets and quota limits cannot be negative"@,
        SettingsError::NotCodexHome => "The selected folder is not a Codex data directory"@,
    }
}

impl SettingsError {
    /// The message shown for this error.
    pub fn message(self) -> (m: &'static str)
        ensures
            m@ == settings_message_spec(self),
    {
        match self {
            SettingsError::RefreshInterval => "Refresh interval must be 1, 5, 10, or 30 seconds",
            SettingsError::Theme => "Unknown theme",
            SettingsError::Language => "Unknown language",
            SettingsError::FloatingOpacity => "Floating opacity must be between 0.2 and 1.0",
            SettingsError::FloatingMode => "Unknown floating window mode",
            SettingsError::NegativeLimit => "Budgets and quota limits cannot be negative",
            SettingsError::NotCodexHome => "The selected folder is not a Codex data directory",
        }
    }
}

/// The settings fields that validation reads. The floating-window opacity is
/// a float; it enters as whether it is a finite number within 0.2–1.0.
pub struct SettingsFields {
    pub codex_path: String,
    pub refresh_interval_seconds: u64,
    pub theme: String,
    pub language: String,
    pub floating_opacity_in_range: bool,
    pub floating_mode: String,
    pub daily_budget: i64,
    pub monthly_budget: i64,
    pub five_hour_limit: i64,
    pub weekly_limit: i64,
}

/// The floating-window modes: auto (expands on hover), compact, detailed
/// and orb.
pub open spec fn is_floating_mode(mode: Seq<char>) -> bool {
    mode == "auto"@ || mode == "compact"@ || mode == "detailed"@ || mode == "orb"@
}

/// The first rule a settings record breaks, in the order they are checked;
/// `codex_path_is_home` says whether the chosen Codex folder looks like a
/// Codex data directory (it is not consulted for an empty path).
pub open spec fn validate_spec(s: SettingsFields, codex_path_is_home: bool) -> Result<(), SettingsError> {
    let r = s.refresh_interval_seconds;
    if !(r == 1 || r == 5 || r == 10 || r == 30) {
        Err(SettingsError::RefreshInterval)
    } else if !(s.theme@ == "system"@ || s.theme@ == "light"@ || s.theme@ == "dark"@) {
        Err(SettingsError::Theme)
    } else if !(s.language@ == ZH_CN@ || s.language@ == EN_US@) {
        Err(SettingsError::Language)
    } else if !s.floating_opacity_in_range {
        Err(SettingsError::FloatingOpacity)
    } else if !is_floating_mode(s.floating_mode@) {
        Err(SettingsError::FloatingMode)
    } else if s.daily_budget < 0 || s.monthly_budget < 0 || s.five_hour_limit < 0 || s.weekly_limit < 0 {
        Err(SettingsError::NegativeLimit)
    } else if s.codex_path@.len() > 0 && !codex_path_is_home {
        Err(SettingsError::NotCodexHome)
    } else {
        Ok(())
    }
}

/// Every record that keeps all the rules is accepted: a refresh interval of
/// 1, 5, 10 or 30 seconds, the system, light or dark theme, Chinese or
/// English, an opacity within range, one of the four floating-window modes,
/// no negative budget or limit, and an empty or recognized Codex folder.
pub proof fn lemma_valid_settings_are_accepted(s: SettingsFields, codex_path_is_home: bool)
    requires
        s.refresh_interval_seconds == 1 || s.refresh_interval_seconds == 5 || s.refresh_interval_seconds == 10
            || s.refresh_interval_seconds == 30,
        s.theme@ == "system"@ || s.theme@ == "light"@ || s.theme@ == "dark"@,
        s.language@ == ZH_CN@ || s.language@ == EN_US@,
        s.floating_opacity_in_range,
        s.floating_mode@ == "auto"@ || s.floating_mode@ == "compact"@ || s.floating_mode@ == "detailed"@
            || s.floating_mode@ == "orb"@,
        s.daily_budget >= 0 && s.monthly_budget >= 0 && s.five_hour_limit >= 0 && s.weekly_limit >= 0,
        s.codex_path@.len() == 0 || codex_path_is_home,
    ensures
        validate_spec(s, codex_path_is_home) == Ok::<(), SettingsError>(()),
{
}

/// The theme rule refuses exactly the themes other than system, light and
/// dark: a record with one of those three is never refused for its theme,
/// and a record with another theme and a valid interval is.
pub proof fn lemma_theme_rule(s: SettingsFields, codex_path_is_home: bool)
    ensures
        (s.theme@ == "system"@ || s.theme@ == "light"@ || s.theme@ == "dark"@) ==> validate_spec(s, codex_path_is_home)
            != Err::<(), SettingsError>(SettingsError::Theme),
        ((s.refresh_interval_seconds == 1 || s.refresh_interval_seconds == 5 || s.refresh_interval_seconds == 10
            || s.refresh_interval_seconds == 30) && !(s.theme@ == "system"@ || s.theme@ == "light"@ || s.theme@
            == "dark"@)) ==> validate_spec(s, codex_path_is_home) == Err::<(), SettingsError>(SettingsError::Theme),
{
}

/// Checks a settings record before it is saved.
pub fn validate_settings(s: &SettingsFields, codex_path_is_home: bool) -> (r: Result<(), SettingsError>)
    ensures
        r == validate_spec(*s, codex_path_is_home),
{
    let r = s.refresh_interval_seconds;
    if !(r == 1 || r == 5 || r == 10 || r == 30) {
        return Err(SettingsError::RefreshInterval);
    }
    let theme = s.theme.as_str();
    if !(str_eq(theme, "system") || str_eq(theme, "light") || str_eq(theme, "dark")) {
        return Err(SettingsError::Theme);
    }
    let language = s.language.as_str();
    if !(str_eq(language, ZH_CN) || str_eq(language, EN_US)) {
        return Err(SettingsError::Language);
    }
    if !s.floating_opacity_in_range {
        return Err(SettingsError::FloatingOpacity);
    }
    let mode = s.floating_mode.as_str();
    if !(str_eq(mode, "auto") || str_eq(mode, "compact") || str_eq(mode, "detailed") || str_eq(mode, "orb")) {
        return Err(SettingsError::FloatingMode);
    }
    if s.daily_budget < 0 || s.monthly_budget < 0 || s.five_hour_limit < 0 || s.weekly_limit < 0 {
        return Err(SettingsError::NegativeLimit);
    }
    if !s.codex_path.as_str().is_empty() && !codex_path_is_home {
        return Err(SettingsError::NotCodexHome);
    }
    Ok(())
}

/// The interval of the reconciliation loop: the configured seconds, at
/// least one.
pub fn reconcile_interval_seconds(refresh_interval_seconds: u64) -> (s: u64)
    ensures
        s == if refresh_interval_seconds > 1 { refresh_interval_seconds } else { 1 },
{
    if refresh_interval_seconds > 1 { refresh_interval_seconds } else { 1 }
}

/// The stored form of the pause switch.
pub open spec fn paused_value_spec(paused: bool) -> Seq<char> {
    if paused { "true"@ } else { "false"@ }
}

/// The value stored for the pause switch.
pub fn sync_paused_value(paused: bool) -> (v: &'static str)
    ensures
        v@ == paused_value_spec(paused),
{
    if paused { "true" } else { "false" }
}

/// Whether synchronization is paused, from the stored value: only `true`
/// pauses it; a missing value does not.
pub fn sync_paused_from_value(value: Option<&str>) -> (paused: bool)
    ensures
        paused == match value {
            Some(v) => v@ == "true"@,
            None => false,
        },
{
    match value {
        Some(v) => str_eq(v, "true"),
        None => false,
    }
}

/// Pausing or resuming is remembered: reading back the stored value gives
/// the switch that was stored.
pub proof fn lemma_pause_switch_round_trips(paused: bool)
    ensures
        (paused_value_spec(paused) == "true"@) == paused,
{
    reveal_strlit("true");
    reveal_strlit("false");
    if !paused {
        assert("false"@.len() != "true"@.len());
    }
}

/// The salt used to key projects: the stored one, else `local`.
pub fn privacy_salt_or_default(stored: Option<String>) -> (salt: String)
    ensures
        salt@ == match stored {
            Some(s) => s@,
            None => "local"@,
        },
{
    match stored {
        Some(s) => s,
        None => "local".to_owned(),
    }
}

} // verus!
