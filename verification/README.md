# vietnote

The verified core of the VietNote desktop backend (a meeting transcription,
translation and summary assistant), written in Verus.

- `src/` — the library. Its functions are proved by Verus against their
  contracts, except four small trusted wrappers whose contracts Verus takes on
  trust: `to_lowercase` (std's `str::to_lowercase`), `new_keyring_entry`
  (keyring's `Entry::new`), `base64_encode` (base64's standard engine) and
  `rfc3339_from_unix_millis` (chrono's millisecond timestamps and
  `to_rfc3339`). Each one's doc comment says what its contract claims.
  The modules:
  - `text` — whitespace, trimming, prefixes and string comparison on characters;
  - `evidence` — evidence ID lists: kept only when they name a transcript
    segment, sorted, without repeats (with uniqueness and idempotence laws);
  - `summary` — meeting summary types and `validate_summary`, which drops
    unbacked decisions, action items, unresolved and deferred items, and marks
    every unresolved topic "No final decision";
  - `provider` — AI provider names, credential store entries, and where a key
    comes from (stored, environment, built in);
  - `config` — the AI configuration, its defaults and the checks before saving;
  - `voice` — the shipped text-to-speech voices and the selected one;
  - `completion` — chat requests, token budgets, prompts and reply framing;
  - `capture`, `worker`, `notes` — capture plans, audio backlog, worker start
    decisions, and which notes file is read (the app's own, or the one the
    legacy Swift app left) with the dates written into it.
- `tests/` — tests run against the compiled library.
- `app/` — the Tauri shell: commands, files, the OS credential store, the
  speech worker process, audio capture and HTTP calls.
