# sentience

The verified core of the Sentience services, which index a Discord server into a
Postgres database and enrich it with a language model:

- **ingestion** stores every message of a guild, with its channel (and parent
  channels), its author, the message it replies to, its attachments, stickers,
  reactions and edits, live and by a historical scan;
- **fact extraction** asks a model for durable facts about each message's author and
  stores them with their evidence;
- **topic sorting** groups the messages of each channel into topics.

## Layout

- `src/` — the library, verified with Verus. The steps that talk to Discord, the
  database, the S3 bucket or the model are described as state machines: a step
  function takes the current stage and the answer of the last step and returns the next
  stage and the next step to perform, with a contract that says exactly what is decided.
  - `ingest` (a message), `channels`, `users`, `media` (attachments and stickers, and
    the content-addressed storing of an object), `emoji`, `reactions`, `edits`, `scan`
    (guild filter, listing pages, storing order), `discord` (every step only reads from
    Discord);
  - `extraction`, `facts`, `llm`, `batch` (fact extraction), `sorting`, `topics` (topic
    sorting);
  - `messages` (message types and system message text), `model` (database rows),
    `text`, `time`, `ids`, `hash` (helpers, and the calls into chrono, uuid, sha2, hex).
- `tests/` — tests of the library.
- `app/` — the programs: `main.rs` runs one service (`ingest`, `facts`, `topics` or
  `watch`) and performs the steps the library decides with serenity, sqlx, the AWS S3
  SDK and reqwest.
