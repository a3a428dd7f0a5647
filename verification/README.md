# filedrop

A small file-sharing service: a client uploads a file to a group, the server stores
it for an hour and announces it to every subscribed daemon, and each daemon asks its
user whether to download it.

- `src/` is the verified library (Verus): the records, the UUID text form, the
  server's relay, upload and group-directory decisions, the client's screens and
  their transitions, and the daemon's handling of announcements.
- `app/` holds the three programs around it (`run_server`, `run_client`,
  `run_daemon`): HTTP, database, disk and window work, driven by the library.
- `tests/` exercises the library on concrete values.
