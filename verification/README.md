# adventuria_timer

A desktop client for a timer service: log in, then start and stop the timer
with two global hotkeys; the window shows whether the timer runs and lets the
user rebind the hotkeys; a tray icon hides and restores the window.

- `src/` is the verified library (Verus). `app::AdventuriaApp::update` takes
  a message and returns the new state and the commands to carry out; its
  contract is the spec function `app::app_step`, built from the three
  controllers' steps in `controllers/`. `hotkeys` holds the hotkey ids,
  `config` the settings, `views` what the window shows, `log` the crash
  report text, and `laws` the properties that span several messages.
- `app/` runs the window (iced), the tray icon, the global hotkeys, the
  HTTP requests and the settings file, and carries out the library's commands.
- `tests/` runs the library, and checks the hotkey ids against the hotkey
  library itself.
