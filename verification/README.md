# musicbot

The logic of a Discord music bot, with its contracts proved.

- `src/` — the verified library: the check that gates the queue commands,
  the play command's plan for reaching the user's voice channel, the edits
  that clear, remove and swap make to the play queue, the paged queue
  listing and its buttons, the progress bar and track times, and the reading
  of `MM:SS` seek positions. Contracts are stated over `Seq`/`nat` models;
  the properties that span functions stand as `law_*` proof functions.
- `app/` — the bot itself: the poise/serenity/songbird command handlers,
  which gather the state from Discord, call the library, and send the
  replies.
- `tests/` — tests of the library on concrete values.
