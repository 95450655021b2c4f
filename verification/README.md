# just_merge

A desktop helper for GitLab merge approvals. A requester pastes a merge
request URL; the client publishes an approval request on a Redis channel;
the clients of the other team members take a slot of a small semaphore,
approve the merge request on GitLab and publish their answer back to the
requester, who gets a notification.

Layout:

- `src/` — the verified library (Verus):
  - `lib.rs`: merge request URL parsing, the application's session state,
    log line formatting and filtering, window close handling;
  - `text.rs`: character-sequence helpers (prefixes, search, decimal
    rendering and parsing of `u64`);
  - `pubsub/mod.rs`: the approval protocol (requests, answers, channels,
    routing of incoming messages, notices);
  - `pubsub/gitlab.rs`: users, merge request summaries, approval checks,
    GitLab error texts;
  - `pubsub/redis_cli.rs`: the Redis URL and the semaphore script;
  - `store.rs`: the settings file path; `tray.rs`: the tray menu entries.
- `app/` — the Tauri application around it: window, tray, commands,
  logging, the GitLab and Redis clients, JSON (de)serialisation.
- `tests/` — tests of the library.
