# govee

A touch-friendly controller for Govee lights on the local network, built
around a library whose behaviour is stated in contracts and proved with Verus.

- `src/` — the library: the LAN wire format (JSON messages as UTF-8 bytes),
  the range checks on brightness and color temperature, the cloud API's status
  and state decoding, the worker's offline table and stepped reconnect backoff
  (5 s → 10 s → 30 s → 60 s), the worker's handling of each command as a state
  machine that names the next network call and takes its outcome, the messages
  the worker reports, the GUI state and how worker events update it, light
  groups (at most 10) and device names, hex color
  parsing and formatting, and how a scene palette is spread over devices.
- `tests/` — tests of the library on concrete values.
- `app/` — the program: UDP and HTTP I/O (tokio, reqwest), the background
  worker loop that performs the calls the state machine names, configuration
  files, the egui/eframe window, and the floating-point HSV conversion.
