# auto_keypress

A desktop tool that presses keys in a chosen window at fixed intervals,
with an English and a Simplified Chinese interface and an F9 hotkey that
starts and stops it.

- `src/` is the verified library (Verus): the key table and key-event
  planning (`key_sender`), the window picker's decisions (`window_picker`),
  the interface text (`i18n`), the saved configuration (`config`), send
  counts and worker pacing (`scheduler`), the main window's state and its
  transitions (`app_state`), and the text handling they share (`text`).
- `app/` is the program around it: the window built with the GUI toolkit,
  the configuration file, the worker threads, and the calls into Windows and
  macOS that read the mouse and windows and deliver key presses.
- `tests/` runs the library on concrete values.
