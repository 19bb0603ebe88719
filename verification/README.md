# codex_token_monitor

A local token monitor for Codex sessions: it reads the token metadata that
Codex writes to its JSONL session files, keeps incremental checkpoints,
accounts input, cached input, output and reasoning tokens without counting
any of them twice, and derives the dashboard figures (rolling quota windows,
forecasts, monthly projection, budget alerts) and the account-quota snapshot.

## Layout

- `src/` is the library, written in Verus. Its functions are proved
  against their contracts, except a few small trusted wrappers (in `json`,
  `digest`, `text`, `discovery` and `i18n`) that make the calls into
  `serde_json`, `sha2`, `hex`, `sys-locale` and std; their contracts are
  assumed, and each says in its doc comment what it claims. Where an answer
  comes from the file system or the operating system (whether a folder is a
  Codex directory, the system locale), the contract states only what holds
  of every answer, and the decision taken on that answer is exact:
  - `tokens` – token totals, saturating arithmetic, cumulative deltas;
  - `parser` – one JSONL line to a usage event, the session context, and
    the laws of incremental reading;
  - `sync` – checkpoints and chunked reading;
  - `dashboard` – quota windows, forecasts, projections, risk, alerts, charts;
  - `quota` – credentials, response status, locating and classifying the
    account-quota windows, error codes and messages;
  - `settings`, `i18n`, `widget`, `discovery` – validation, native texts,
    floating-window geometry, recognising a Codex data directory;
  - `json`, `digest`, `text` – the calls into `serde_json`, `sha2`, `hex` and
    std behind small trusted wrappers, and the string helpers they need.
- `tests/` runs the library on concrete values.
- `app/` is the service around it: SQLite storage, file walking and watching,
  the HTTP request, the worker threads and the shell interface.
