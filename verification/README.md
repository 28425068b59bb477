# reminder_bot

A Telegram bot that asks a user for a language, a reminder style and a location, then lets
them schedule reminders that a language model writes in the chosen style. A reminder keeps
coming until the user answers with its agreement phrase.

The dialogue is a state machine. `src/` holds it as verified decisions: each handler takes
the chat's state and the incoming message or button press and returns the list of effects to
carry out (messages to send or edit, the next state, rows to store or delete). `app/` runs
the bot: it receives updates from Telegram, keeps the dialogue state in SQLite, performs the
effects, reads the clock and parses commands for the router, and runs the two background
loops that generate and deliver reminders.

Layout of `src/`:

- `text.rs` – character-level string helpers: search, replacement, decimal numbers.
- `styles.rs` – reminder styles, main-menu buttons and languages.
- `keyboard.rs` – reply and inline keyboards, cut into rows.
- `clock.rs` – dates and times; the calls into chrono and chrono-tz.
- `settings.rs` – user settings and the dialogue state.
- `effect.rs` – the effects a handler asks for.
- `dialogue.rs`, `schedule.rs`, `buttons.rs` – the message and button handlers.
- `router.rs` – answers a command in any state, else picks the handler for the chat's state.
- `reminders.rs` – stored reminders, prompts for the model, delivery.
- `laws.rs` – properties that span several handlers.
