//! Verified core of Codex Token Monitor: token accounting, the metadata-only
//! JSONL parser for Codex session logs, quota and budget rules, and the
//! language tables used by the tray and notifications.

pub mod dashboard;
pub mod digest;
pub mod discovery;
pub mod i18n;
pub mod json;
pub mod parser;
pub mod quota;
pub mod settings;
pub mod sync;
pub mod text;
pub mod tokens;
pub mod widget;
