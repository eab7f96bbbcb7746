# exam_monitor

The verified core of an exam-proctoring service. The exam page reports
browser events (page hidden or shown, tab switches, window blur and focus,
copy and paste, ...); the service measures each session's behaviour and
flags sessions that break its suspicion rules.

## Layout

- `src/` — the library, verified with Verus:
  - `time.rs` — instants as chrono represents them, and their differences;
  - `text.rs` — character-level string comparisons;
  - `models.rs` — users, sessions, events, answers, request and reply bodies;
  - `config.rs` — the thresholds of the rules;
  - `patterns.rs` — dense switching, repeated copying, bursts of events;
  - `metrics.rs` — the behaviour metrics of a session and their laws;
  - `rules.rs` — the sixteen suspicion rules, risk points and their laws;
  - `detection.rs` — the detection service that computes and judges;
  - `api.rs` — request validation and error bodies;
  - `leaderboard.rs` — joining the reasons stored with a flagged session,
    and merging them again for the leaderboard.
- `app/` — the HTTP server (axum), SQLite storage (sqlx) and the
  serializable copies of the library's records.
- `tests/` — tests of the library on concrete sessions.
