# fishstrap_installer

A verified library behind the Fishstrap installer, and the small program
around it.

The installer clones the Fishstrap sources, patches a few files at fixed
markers, builds them with the .NET SDK and installs the result (or, for an
update, waits for the running Fishstrap to exit and replaces its files).

## Layout

- `src/` — the library, verified with Verus:
  - `text` — searching, counting and replacing in character sequences;
  - `patch` — replacing a marker that must occur exactly once, and the
    error reported when it does not;
  - `markers` — the markers searched for and the text put there;
  - `inject` — each integration, the update-check rewrite, the settings
    compatibility property and line-ending normalisation;
  - `args` — the command line, including the one the updater passes back;
  - `plan` — the installation steps a configuration asks for;
  - `setup` — the state machine that finds or installs git and the .NET SDK;
  - `lookup` — the state machine that finds a tool on the search path or in
    its usual install folders;
  - `tools`, `commands`, `escape`, `number`, `whitespace`, `paths`, `clock` —
    tool lookup, the commands and PowerShell scripts that are run, quoting,
    decimal numbers, trimming, Windows paths and the build time stamp.
- `tests/` — tests of the library on concrete inputs.
- `app/` — the program: reads and writes files, runs commands and asks the
  user, following what the library decides.  The files added to the sources
  are read from `injected/files` beside the executable, and copied with the
  updater into the install folder.
