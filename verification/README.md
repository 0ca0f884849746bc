# discord_bots

Two Discord bots whose logic is verified with Verus:

- **summarizer**: posts a summary, written by a local language model
  (Ollama), of messages whose length lies between configured bounds;
  messages of bots are never summarized.
- **cleanup-bot**: deletes messages older than a per-channel retention policy,
  backing attachments up to OneDrive or Proton Drive first, with a retried
  upload queue; `/cleanup purge-user` deletes a user's messages after
  confirmation.

## Layout

- `src/` — the verified library.
  - `text.rs` — decimal numbers, padding, mentions, trimming and splitting,
    each against a specification of what `std` and `serenity` produce.
  - `summarizer/` — configuration from environment values, the prompt, and
    the message handler as a state machine.
  - `cleanup_bot/` — configuration and its laws, the slash commands (with
    `purge-user` as a state machine), the cleanup run, the deletion plan, the
    user scan, the backup queue and worker, and the cloud backends' requests,
    paths and error texts.
- `app/` — the programs: Discord, HTTP, files, processes and timers around
  the library. `discord_bots summarizer` or `discord_bots cleanup-bot`.
- `tests/` — tests of the library on concrete values.
