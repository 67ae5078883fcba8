# rust_expander

A Windows text expander: typed triggers are replaced by snippets, either the
moment the trigger is complete or when a global hotkey is pressed.

- `src/` is the verified library (Verus): the rolling keystroke window
  (`buffer`), the keyboard hook's decisions (`hook`), trigger matching,
  hotkey rules (`hotkey`), the settings window's hotkey and snippet-table text
  (`ui`), the UI strings (`i18n`), the configuration and its load rules
  (`config`), line-ending normalisation (`text_utils`), and the replacement
  plans, their synthetic keystrokes and the ordered steps that carry them out
  (`replacer`).
- `app/` is the Windows program around it: the keyboard hook thread, clipboard
  and `SendInput` calls, reading and writing `config.toml`, uninstall, and a
  notification-area icon whose menu pauses or resumes expansion, uninstalls,
  and quits.
- The program has no settings window: snippets, the hotkey, the buffer size
  and the language are edited in `config.toml`. The library still holds the
  logic such a window needs (hotkey recording and display, the snippet table
  and its save filter) in `ui` and `hook`.
- `tests/` exercises the library on concrete inputs.
