# semantic_core

A semantic layer over Parquet data, with its contracts proved by Verus.

Models name metrics (a sum or a count over a source column) and dimensions (a
source column to group by) of a table. A query asks for metrics and dimensions by
`model.name` and may filter rows by a field, an operation and a value. The library
validates the query, plans it (the table to read, the predicates, the group-by
columns and the aggregations, and the order of the result's columns: metrics first,
then dimensions) and describes the result's schema.

Layout:

- `src/`: the verified library.
  - `semantic_layer`: models, queries and their validation, planning, result schema.
  - `gateway`: the server's logic: reading a request into a query, argument and
    configuration values, error statuses.
  - `data_source`: the Parquet data directory and which files become tables.
  - `registry`, `text`: a name-keyed table and string helpers, with their specs.
- `tests/`: tests of the library.
- `app/`: the HTTP server around it (arguments, configuration files, model files,
  DataFusion execution, JSON responses).
