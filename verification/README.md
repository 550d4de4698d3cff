# Eoliann Windows Tools

A Windows administration tool: system information, maintenance and privacy
tweaks, app installation through winget, removal of built-in apps, disk
health, preferences and account security.

The project is written in Verus. Its decisions are made by a verified
library; a thin program around it runs the processes, reads and writes the
registry and files, and draws the window.

## Layout

- `src/` — the verified library (`eoliann_tools`). Each module states its
  behaviour in `requires` / `ensures` contracts over mathematical models and
  proves it; laws that span several functions are public proof functions.
  - `text`, `order`, `assoc`, `log` — text, ordering and log helpers.
  - `output` — how a finished process is reported.
  - `removal`, `upgrade` — the removal of a built-in app and the upgrade of
    all apps, as state machines driven by the program.
  - `install`, `winapp` — the app catalog, selections and bulk runs.
  - `system`, `security`, `platform`, `restore`, `registry`, `prefs`,
    `performance`, `disk_health`, `info`, `update` — the decisions behind
    each panel and command.
- `tests/` — tests of the library on concrete values.
- `app/` — the program: process runners, Windows API calls, the registry,
  JSON files, GitHub update check and the egui window.
- `extras/scripts/` — the PowerShell and `cmd` scripts that the program
  runs.
