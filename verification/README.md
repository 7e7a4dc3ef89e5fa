# musicserver_desktop

Verified core of the Music Server desktop packages (a backend supervisor and
an admin UI launcher, both Tauri applications).

- `src/` — the library, verified with Verus: settings and their defaults,
  where certificates, logs and data live, the steps that start and restart
  MongoDB and the backend and the run of those steps (which step comes next,
  what each outcome does), the decisions taken while waiting for ports, the
  status window's state, the tray menu, the registry of child processes, and
  the launch description of the admin UI server.
- `app/` — the two applications around it: window system, sidecar processes,
  sockets and files (not verified).
- `tests/` — tests of the library on concrete values.
