# sql_peas

Binding Rust values to the parameters of a prepared SQLite statement and reading them back
from its result columns, verified with Verus.

- `src/value.rs`: values (`Value`, `Double`, `Type`), what SQLite reports for a column
  (`Column`), and errors.
- `src/statement.rs`: `Statement`, a prepared statement held as plain values: parameter names
  and bound values, the length limit for bound blobs and strings, column names, the current
  row, and whether it is running.
- `src/index.rs`: naming a parameter or a column by position or by name.
- `src/columns.rs`: the traits `Bindable`, `BindableWithIndex`, `ReadableWithIndex` and their
  implementations, each with a contract over the statement's view.
- `src/laws.rs`: properties that hold across calls, proved.
- `app/lib.rs`: runs statements on SQLite through `sqlite3-sys`: hands the bound values to
  SQLite before a run and hands each row that SQLite reports back to the statement.
