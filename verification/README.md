# cref

A commit message search tool: it imports the commits of GitHub
repositories into a SQLite store under `~/.cref/cref.db` and lets the user
search their messages in an interactive screen that filters as one types.

- `src/` is the verified library (Verus): the SQL texts of the store
  (`db::query`), the step-by-step plan that imports a repository's commits
  (`db::CommitImport`), the command that a command line selects and the
  paths of the store (`cref`), the search screen's state and filter
  (`view`), the GitHub address and answer (`github`), and the text
  operations they rest on (`text`).
- `app/` is the program around it: argument parsing (docopt), the store
  (sqlite3), HTTP (hyper), JSON (rustc-serialize) and the terminal
  (rustbox).
- `tests/` runs the library on concrete values.
