# experienced

The decision-making core of the Experienced Discord levelling bot, written in
Verus and proved against its contracts.

- `src/` is the verified library:
  - `mee6`, `libmee6`, `mee6_xp_to_level`: level arithmetic (XP needed per
    level, the level and progress reached with some XP).
  - `interpolation`, `interpolation_laws`: level-up message templates, their
    parser, renderer and printer, with the round-trip laws between them.
  - `common`, `rewards`, `listener`, `audit_log`: guild settings, which reward
    roles a member holds, what a message earns, level-up messages, and the
    audit-log records of kicks and bans. `listener::message_step` is the
    handling of one message as a state machine: each step takes what the
    outside world reported and says what to do next.
  - `simple_listener`: the first listener's simpler handling of a message,
    also as a state machine.
  - `database`: how ids and settings are stored and read back.
  - `permission_cache`: the bot's knowledge of guild roles, kept up to date
    from gateway events, and whether it may hand out roles.
  - `hex_color`, `rank_card`, `slash`: colour codes, the rank card's
    customisation data, and the slash commands' replies and routing.
  - `signature`: checking the Ed25519 signature of interaction requests.
  - `web`: the rows of the leaderboard page.
  - `user_cache`: what the shared cache holds of users and guilds, and its keys.
  - `text`: building strings, numbers in decimal and hex.
- `tests/` runs the library on concrete values.
- `app/` is a small command-line front end: it reads a card manifest with
  serde and TOML, reads environment settings, and holds the floating-point
  parts of the level arithmetic. `app/listener.rs` runs the message state
  machines against a world of I/O operations; `experienced demo` runs them
  against a world kept in memory.
