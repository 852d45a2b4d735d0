# aura

A Discord bot that tracks a weekly goal of "dirty money" deliveries: members
hand in deliveries through a form, moderators approve or reject them, every
weekend members are reminded of what is left, and every Monday a leaderboard
is posted.

- `src/` is the verified library: the bot's commands and their texts, the
  routing of interactions, the goal totals, the weekly leaderboard (ranking,
  grouping and message), the week boundaries in São Paulo time, and the SQL
  statements and row conversions of the SQLite store. Each function carries a
  contract checked by Verus; `chrono` and `chrono-tz` are called through a few
  trusted wrappers in `src/bot/utils/clock.rs`.
- Each handler that talks to Discord or the store is a step function in
  `src/` (state and event to next state and action): the order of its reads,
  writes and answers is verified there, with laws such as "a goal is stored
  only once its approval request is posted" and "a user never gets a second
  individual channel".
- `app/` runs the bot: the Discord client (serenity), the SQLite pool (sqlx),
  the scheduled jobs (tokio-cron-scheduler), the loops that perform each
  step's action and hand back its outcome, and the conversions between the
  library's plain values and those crates' types. The migrations are read
  from `./migrations` when the bot starts.
- `tests/` exercises the library on concrete values.
