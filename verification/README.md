# eng_on_esc

A resident utility for Windows and macOS that switches a Korean input method
to English whenever Escape is pressed, while Escape keeps its usual effect.

- `src/` is the verified library (Verus): the per-thread mode table of the
  Windows front end (`thread_modes`), the keyboard-hook, window-message,
  key-injection, tray menu and start-at-login (registry value) decisions
  (`win32`), the global mode, keyboard
  callback, Caps Lock injection and menu decisions of the macOS front end
  (`mac`), the debounced Escape worker (`worker`), the launch agent path and
  document (`autostart`), and the menu-bar icon pixels (`icon`).
- `app/` is the program around it: hooks, key injection, tray and menu-bar
  icons, files and the event loops, for Windows and macOS.
- `tests/` exercises the library on concrete values.
