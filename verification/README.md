# winnbot

The command logic of a Discord bot, written in Verus and verified.

- `src/` is the verified library: text utilities (`text`), the commands
  (`commands::{rank, puzzle, count, archive, clear, echo, help, prompt, fractal,
  unknown}`), the watch-list notices (`auto::notify`) and the bot-wide decisions
  (`bot`). Chess positions, PGN replay, image cropping, random choice, Discord
  message links and Unicode lower-casing are delegated to `shakmaty`,
  `pgnparse`, `image`, `rand`, `serenity` and `std` through small trusted
  functions whose contracts name or state what they return.
- `app/` is the bot itself: the Discord connection (`poise`, `serenity`,
  `tokio`), HTTP requests (`reqwest`), JSON decoding (`serde_json`), the Python
  rank script (`pyo3`), the message archive (`rusqlite`), the environment
  (`dotenvy`) and system load (`sys-info`).
- `tests/` runs the library on concrete inputs.

The bot expects its data files next to where it runs: the watch list
`src/auto/data/data.txt`, the puzzle list `puzzles.csv`, the rank tables
`src/commands/data/{1v1,2v2,3v3}-ranks.txt` and the script
`src/commands/get_rank.py`.
