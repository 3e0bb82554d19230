# Pomotui

A Pomodoro timer whose product rules are proved with Verus.

- `src/` is the verified library: the Timer state machine and Focus Cycle
  (`domain`), Tasks and Session History (`tasks`), the wire protocol's values
  and rules (`protocol`), the Timer Service's decisions, durable form and
  restart (`service`), recovery of elapsed time (`recovery`), the reminder
  outbox policy (`outbox`), local days (`calendar`), and the pure parts of the
  command line (`cli`), tray (`tray`) and terminal frontend (`tui`, `screen`,
  `animation`, `config`, `settings`). Contracts are stated over views and
  spec functions; the laws are public proof functions named `law_*`.
- `app/` is the program around it: the Timer Service daemon (SQLite store,
  Unix-socket server, clock and desktop reminders), the `pomotui` command
  line, the ratatui terminal frontend and the tray entry point.
- `tests/` runs the library on concrete values.
