# nex

A console launcher for Fortnite builds that run against a local backend.

- `src/` is the verified library (Verus): text primitives (`text`), settings
  and how a saved setting is stored and read back (`settings`), launch
  configurations and lookup by name (`configuration`), the configuration
  wizard as a step function (`creator`), launch planning and the reading of
  the game's output (`launch`), the menus and the checks on custom values
  (`menus`), and the few calls into `regex`, `url` and `std::path` whose
  contracts are trusted (`outside`).
- `app/` is the program around it: console I/O, the JSON files under
  `%APPDATA%\Nex`, processes, dll injection and the local TCP proxy.
- `tests/` runs the library on concrete values.
