# DreamBreaker

A board game in the spirit of Monopoly against bots, with a PostgreSQL back end that keeps
the accounts, the games and the bots' moves.

- `src/` is the verified library. `client.rs` is the game client as a state machine:
  `DreamBreaker::update` takes the state and a message (a user action or a database reply)
  and gives the next state and the `Command` to perform; its contract is the spec function
  `step`. `rules.rs` holds the dice, movement, landing and win/loss rules, `board.rs` the
  board's geometry and labels, `display.rs` the captions, choices and card pictures the screens derive from the game's data (the app only fills figures into fixed labels),
  `auth.rs` the registration checks and the password handling (through bcrypt),
  `text.rs` the string operations they are written with, and `laws.rs` the properties
  that span several functions, proved over the same specs.
- `app/` is the desktop shell: the iced window, the sqlx queries, and the loop that hands
  every reply back to `update` and performs the command it returns.
- `tests/` runs the library on concrete values.
