# fieldmid

The FieldMid edge daemon watches critical field incidents that PowerSync
replicates into a local SQLite database, strictly read-only, with a terminal
dashboard or a headless log, plus CLI commands for login and diagnostics.

- `src/` is the verified library (Verus): command-line parsing, configuration
  and device identity, session lifetime rules, the decisions of the browser
  and password login flows, JWT claim reading, join-request and site
  bookkeeping, the backend endpoints, the read-only guard, sync-status lines,
  the dashboard state machine and its text, the local schema and the banner.
- `app/` is the program around it: argument and environment reading, HTTP
  calls, session files, the PowerSync database, the ratatui dashboard and the
  radio telemetry reader.
- `tests/` exercises the library on concrete values.
