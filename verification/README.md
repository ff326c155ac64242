# ubuntu_optimizer

The decision logic of a terminal Ubuntu optimizer and debloater, verified
with Verus, and the terminal front end that drives it.

- `src/` — the verified library:
  - `tweak.rs`: the twelve optimizations and the five pages that list them;
  - `system.rs`: the detected system, the scan result, and their evaluation
    from plain readings (os-release text, session variables, command output);
  - `script.rs`: the apply and restore scripts, their framing, and how a run
    is reported;
  - `app.rs`: the interactive state machine: each key yields the next state
    and the outside work to do (scan, run a script, quit);
  - `display.rs`: what each part of the screen shows;
  - `text.rs`: character-level text operations (lines, Unicode whitespace,
    trimming, search, decimal numbers);
  - `unicode.rs`: the standard library's case mappings and lossy UTF-8
    decoding, whose results the contracts name;
  - `properties.rs`: properties relating several operations.
- `app/` — the terminal program: reads the system, runs scripts, draws with
  ratatui and reads keys with crossterm.
- `tests/` — tests of the library on concrete values.
