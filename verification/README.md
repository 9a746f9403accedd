# RustGesture

Mouse gestures for Windows: hold a mouse button (middle, right, X1 or X2), draw
strokes, release, and the action configured for that gesture runs (a keyboard
shortcut, a mouse click, a window command or a program).

The gesture logic is a library verified with Verus (`src/`):

- `tracker`, `recognizer`, `parser`, `gesture`: turning mouse events into gestures
  (start distance, stroke directions, timeout, modifiers).
- `intent`, `config`, `strmap`: the configuration and the lookup of the action for a
  gesture (application entries before global ones).
- `input`, `keys`: the key presses, clicks and window commands that carry out an
  action.
- `dispatch`: where a gesture may start (not in disabled or, when so set, full-screen
  applications) and which action a completed gesture runs in the application in front.
- `mouse`, `tray`, `overlay`, `screen`, `shortcut`, `message_loop`, `manager`:
  decisions of the hook, notification icon, trail overlay and settings.
- `dialog`, `dialog_state`, `capture`: the settings dialog's texts and edits.
- `text`: string functions the rest is specified with.

`app/` is the Windows program around it: configuration file I/O (JSON), the
low-level mouse hook, simulated input, the notification icon and the overlay window.
