# projwarrior

Keeps track of projects next to a taskwarrior task list: projects live in a
taskchampion replica, and each project's tasks are counted from the task list.

`src/` is the verified library (Verus):

- `text` — decimal rendering and parsing of numbers, string equality, infix search, joining.
- `state` — the state of a stored project and its stored text.
- `stored` — stored projects: a table row read back into a project, and a project written as a row.
- `error` — configuration and command errors with their messages.
- `export` — the exported task list and its cache file: reading, filtering, writing back.
- `ident` — identifiers (128-bit values) and entry dates, through `uuid` and `chrono`.
- `cache` — the task cache file and its freshness rule.
- `config` — commands and filters read from the command line, and the settings they adjust.
- `select` — positions of a list chosen by a predicate; dropping repeats.
- `tasks` — what is read of the task list: active project tasks, counts, project names.
- `filters`, `query` — which stored projects are asked for, and the SQL text with its parameters.
- `table` — columns, cell texts, colours and rows of the project tables.
- `projwarrior` — the decisions around each replica command and the messages reported.

`app/` is the program around it: argument parsing, the configuration file,
the cache file, the task export, the SQLite store, the replica and the
rendering of tables.
