# bluetooth-switch

Hands a Bluetooth device over from one machine to another on a LAN: the sending
machine disconnects the device and asks the agent on the receiving machine to
connect it.

Layout:

- `src/` — the verified library: aliases and their bookkeeping (`config`), finding
  a device by what the user typed (`lookup`), the `list` and `status` reports
  (`report`), reading the platform tools' JSON output (`json`, `backend`), the
  agent's answers (`agent`), the command line's decisions (`cli`) and the state of
  the graphical front end (`ui`).
- `app/` — the program around it: argument parsing, the configuration file, running
  `blueutil` or PowerShell, the agent's network loop and the egui window.
- `tests/` — tests of the library on concrete values.
