# flashtool

Read-only MTK Preloader/BROM tooling around a bundled Python 3.12 runtime
and its `mtk.py` client.

- `src/` — the verified library: loader selection (`loader`), the file
  layout under the temp directory (`paths`), the `mtk.py` argument lists
  and the reading of its results (`commands`), the runtime checks and the
  interpreter probe (`python_runner`), entry-by-entry reading of the runtime
  archive (`archive`), text helpers (`text`) and the error type (`error`).
- `app/` — the `flashtool` command line: argument parsing, the temp
  directory, file writes and child processes, all driven by the library.
- `tests/` — tests of the library on concrete values.
