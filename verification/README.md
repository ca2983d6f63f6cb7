# rx3wm

A tiling window manager in the manner of i3 and xmonad, written in Rust,
with its logic verified by Verus.

- `src/` is the verified library: the commands bound to keys and what each
  asks of the workspaces (`commands`), the default configuration (`config`,
  `keycode`), the line shown by the status bar (`statusbar`), the two-column
  tiling of the Wayland backend (`tiling`), the errors and their report
  (`errors`), and the start of the window manager on a backend
  (`window_system`).
- `app/` is the program around it: the logger, the X and Wayland backends,
  the status bar process and the spawning of commands.
- `tests/` runs the library on concrete values.
