# fancymount

FancyMount is a terminal UI mount manager: browse, inspect, mount and unmount
filesystems with vim-style keys.  This crate is its core, verified with Verus;
the binary in `app/` draws the screen, reads the mount table, runs `sudo` and
talks to the clipboard.

## Layout

- `src/model.rs` — the application as a state machine over plain values:
  what each key press, tick, operation result and clipboard answer does.
- `src/app.rs` — the `App` state and its methods, each proved to follow the
  state machine and to keep its invariant (the selection points at a mount;
  the dialog's field cursor and filesystem choice are in range).
- `src/laws.rs` — properties across several steps: Shift+Tab undoes Tab,
  Backspace undoes typing, status messages last 30 ticks and toasts 20, a
  successful operation's password is reused, Ctrl+C always quits, the
  selection stays visible.
- `src/display.rs` — basenames, option bullets, list columns, detail pane.
- `src/layout.rs` — dialog and toast rectangles, the usage column, row
  emphasis, colours.
- `src/mount_ops.rs` — filesystem presets, `sudo` arguments, outcome
  messages, human-readable sizes.
- `src/mount_info.rs` — mount entries, the `/proc/mounts` reader, sizes from
  `statvfs(2)` figures, option text from mount flags.
- `src/clipboard.rs` — the clipboard tools and the order they are tried in.
- `src/text.rs` — characters, trimming, splitting, padding, decimals.
- `app/` — terminal, event loop, rendering, processes, clipboard.
