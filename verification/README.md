# filesearcherv5_web

A small web service for uploading, downloading and deleting files below a
storage directory, and for serving and refreshing a file database.

- `src/` is the verified library. It holds the request rules:
  reading the request headers (`request`), reading paths as `std::path` does
  on Unix (`path`), placing a requested path below the storage directory
  (`resolve`), the answers given (`reply`), and, for each endpoint, the
  decisions taken between its filesystem operations (`upload`, `download`,
  `delete`, `file_db`, `refresh`). Each endpoint is a sequence of steps: a
  step returns the next filesystem operation together with what to resume
  once it has been performed; for deletions and the file database the
  steps are also composed into whole runs over a filesystem's answers.
  `laws` states what holds across functions.
- `app/` is the server: configuration, logging, routing with axum, and the
  filesystem and network work that the library's steps ask for.
- `tests/` runs the library on concrete cases, with an in-memory filesystem,
  and compares the path and number readings with the standard library.
