# hstack

The logic of HStack, a conversational ticket stack, as a Verus library with
its contracts proved: tickets and their JSON form, offline-first
synchronisation (pending local changes, reconciliation, projection, the state
fingerprint), partial updates, saved places and commutes, schedules in
iCalendar form, the planning pass and its rules, the conversation and agent
transitions, the provider protocol, settings, API-key caching, rate limiting
and the lite server's account rules.

Layout:

- `src/` — the verified library (`hstack`). Each module opens with what it
  covers; the proof functions named `lemma_*` that are public state the
  library's laws (for instance `sync::lemma_reconcile_idempotent`,
  `statehash::lemma_state_text_order_independent`,
  `roundtrip::lemma_ticket_round_trip`,
  `update::lemma_apply_updates_idempotent`,
  `sync::lemma_project_single_focus`, `sync::lemma_project_stamped_concat`,
  `statehash::lemma_state_text_ignores_stamps`,
  `ratelimit::lemma_limit_history`).
- `tests/` — tests run against the compiled library.
- `app/` — the application around it: Tauri commands and stores, the OS
  keychain, HTTP calls to the model providers, the agent and conversation
  loops, and the lite sync server (axum and SQLite).
