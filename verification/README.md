# zenbook_duo_control

The runtime of a control suite for a laptop with two displays and a detachable keyboard: what the
system daemon, the session agent and the control panel's commands decide, as a library whose
behaviour is stated in contracts and proved with Verus.

- `src/` is the library. It decides; it does not read files, run programs or talk to devices.
  - `text`, `clock`, `command`: characters, moments, and what programs have come to.
  - `models`, `ipc`: settings, status, displays, battery, the event log, and the messages.
  - `hardware`: the battery and its charge limit, the keyboard's backlight over USB and
    Bluetooth, the power profiles, and how the panels are mounted.
  - `runtime`: the daemon's state and its record, the policy on keyboard transitions and how it is
    carried out, the status that is taken in each second, the media remap and the battery saver.
  - `session`: the session agent: which compositor runs, dock modes, notifications, brightness,
    special keys, idleness and rotation.
  - `commands`: the control panel's commands.
- `app/` performs what the library decides, and hands back what came of it.
- `tests/` runs the library.

Functions named `law_...` state what holds across several functions. Where the library relies on
code that is not proved (chrono, serde_json, evdev and parts of the standard library), a small
function makes the call, and its doc comment says what is taken for granted.

Numbers with a fraction are carried by their bit patterns (`Real`) or as the integers from which
they are computed (`Quantity`).
