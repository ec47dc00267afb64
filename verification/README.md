# dmm-game-bot

A bot that plays a ten-step farming cycle of a DMM browser game on Windows:
it captures the game window, finds button templates by normalized
cross-correlation and clicks them, with a guard that stops everything unless
the premium currency is seen at zero.

- `src/` is the verified library (Verus): configuration checks, the cycle
  plan, the template search with its stability check, coordinate cache and
  capture retry, the guard, click planning, the daily cutoff and the loop's
  stop rules. Floats are carried as their IEEE-754 bit patterns.
- `app/` is the program around it: command line (clap), the TOML file
  (serde, toml), logging (tracing), Win32 capture and input (windows), image
  loading (image), and the loop that performs what the library decides.
- `tests/` exercises the library with the real outside crates linked.
