# paste_output

The output stage of a desktop dictation helper: put the recognised text on
the clipboard, paste it into the window that had focus before, and offer the
transcription language in the tray menu.

- `src/` is the verified library (Verus). It takes every decision: which
  helper programs to run and in which order, how long to pause, how outcomes
  and errors are reported, which window a focus target names, which menu item
  is ticked and what a click on one asks for. Copying and pasting are session
  objects that the caller drives step by step.
  - `clipboard`: Wayland detection, the retrying copy session, `wl-copy` and
    `wl-paste` results.
  - `paste`: capturing the focus target and the paste session (KWin, X11 and
    the focus-blind Wayland fallback chain).
  - `tray`: the language table, the Language submenu, menu commands.
  - `win32`: thread attachment, key events and result checks of pasting on
    Windows.
- `app/` performs what the library asks for: environment variables, spawning
  programs, sleeping, the clipboard library, the tray (tauri) and the macOS
  and Windows system calls.
- `tests/` runs the library on concrete cases.
