# data_comparison_tool

Compares two tables: the rows unique to each, and the rows whose primary key
is in both but whose other values differ. Both tables are read from MySQL,
copied into SQLite, compared there, and the result can be written as CSV.

- `src/` is the verified library: settings and their validation, the
  command-line readers, the log's decisions, every SQL statement the
  comparison runs (with exact contracts on its text), the reading of the
  statements' results, the CSV export plan, random test data, and the state
  machine of the terminal interface.
- `app/` is the program around it: database connections and queries
  (sqlx), files, the terminal (ratatui), and TOML parsing (serde).
- `tests/` runs the library on concrete values.
