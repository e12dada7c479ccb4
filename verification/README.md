# lunvix

The core of a file explorer that keeps an in-memory catalog of file metadata and
persists it in a key-value store, verified with Verus.

- `src/` is the verified library: path normalisation and path parts (`paths`), text
  helpers (`text`), node construction from disk metadata (`nodes`), the catalog of
  cached nodes and directory children with the store writes each change needs
  (`catalog`), listing and search filters (`search`), rows, icons, sizes and dates
  (`views`, `icons`, `sizes`, `timefmt`), the operating-system commands to run and the
  steps of trying them (`commands`), what to do at start and which directory to watch
  (`session`), and properties relating these operations (`laws`).
- `app/` is the Tauri program around it: the redb store, file-system access, the
  recursive walk, the file watcher, and the commands called by the user interface.
- `tests/` runs the library on concrete values.
