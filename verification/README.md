# geoffrey

The decisions of Geoffrey, a Discord bot for a course, as a verified library.

- `src/` (Verus): identifiers and their decimal text (`ids`), the rows and
  Discord values the bot reads (`records`), failures (`errors`), dates read with
  chrono (`dates`), the administrator commands (`admin`), the user commands
  (`users`), the anonymous `/ask` command (`questions`), the gateway events and
  the start-up catch-up (`events`), the order of each handler's work as a
  state machine from (state, event) to (next state, action) (`flows`), the migration's schema (`schema`), and a
  model of the database with the laws that tie the commands together (`store`).
- `app/`: the bot itself (poise, serenity, sea-orm); it performs the Discord
  and database traffic and asks the library what to do at each step.
