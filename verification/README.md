# ellefuanti

The decisions behind the window of a PHP and Laravel editor, verified with Verus.

The library never acts by itself. A handler of `WorkspaceView` takes an event and
what the window knows at that moment (`Facts`), changes the state, and hands back
the effects to carry out, in order. Reading and writing files, talking to the
language server, git and the terminal, and drawing happen elsewhere, and their
answers come back as further events.

Each handler has a spec function of the same name on `WorkspaceModel`, which says
which state it leads to and which effects it asks for; the handler's contract is
that it does exactly that. Proof functions whose names start with `law_` state
what holds over several of them.

- `src/workspace_view.rs` holds the state, and with `opening.rs`,
  `file_actions.rs`, `panels.rs`, `navigation.rs`, `completing.rs` and
  `commands.rs` everything that happens to it.
- `src/chrome.rs` works out what the window shows; `tree.rs`, `database.rs`,
  `docker.rs`, `test_view.rs` and `tooltip.rs` do so for their panels.
- `src/theme.rs` and `themes.rs` hold the colours and the choice among them.
- The other modules are the parts these are made of: tabs, paths, edits, the
  trail of jumps, background jobs, palette rows, the updater, text.
- `app/` is ordinary Rust around the library: the disk, processes, the watcher.
