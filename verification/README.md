# iedit

An inline terminal text editor: it opens below the terminal cursor instead of
taking over the screen, and keeps the editing logic in a verified library.

- `src/` is the library, verified with Verus. It holds the editor's decisions:
  key-chord input, the keybindings of each mode, the commands and what they
  do to the cursor, the selection, the jump history, the prompt line and the
  viewport; the layout of the editor in the terminal; the status line and the
  colours of each drawn line; the configuration file's format; and which
  lines a save writes and where they land in the file. Work that needs the
  outside world (the document's own search and undo, the clipboard, files,
  processes) is handed back to the caller as an `EditorAction`, whose result
  goes to the matching `finish_*` function.
- `app/` is the program around it: arguments, the terminal, reading keys,
  drawing, the clipboard, saving and running files.
- `tests/` runs the library on concrete inputs.
