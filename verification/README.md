# otty

The logic of a terminal application, written in Verus: every function of the
library states what it does, and the proofs are checked.

- `src/term` connects a session with an escape parser and a screen, and holds
  the stages of the event loop that drives it.
- `src/pty` describes local and SSH sessions, and decides step by step how an
  SSH session is opened, read, written and closed.
- `src/quick_launch` is the tree of saved commands with its editor, and the
  preparation of a launch.
- `src/terminal_workspace` holds the tabs, the panes in them and the terminals
  in the panes.
- `src/ui_engine.rs` turns what the user does in a terminal into requests.
- `src/events.rs`, `src/paths.rs` and `src/settings.rs` hold the rest of the
  application's rules.

`app/` is the program around the library: windows, files, sockets, threads, and
the loop that waits for the operating system.
`tests/` runs the library.
