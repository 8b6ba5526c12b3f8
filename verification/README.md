# komadome

A static site generator for Aozora Bunko, with its logic verified by Verus.

- `src/` is the verified library: the assembly of the page records from the
  database rows, pagination and kana indexes, the data-file checks and their
  console and HTML reports, the CSV lists and their zip archives, the
  configuration and the command-line decisions.  Calls into `regex`, `serde_json`,
  `encoding_rs`, `csv`, `zip` and `chrono` go through small trusted wrappers
  whose doc comments say what their contracts assume.
- `app/` is the program around it: argument parsing, the configuration file,
  the PostgreSQL export, file I/O, and the copies of the library's records
  that carry serde derives.
- `tests/` runs the library on concrete values.

Page rendering needs the natsuzora template engine and template validation
needs subaru; neither crate is among the dependencies, so the `build` and
`validate` commands stop where rendering would begin.
