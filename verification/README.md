# entanglo

Entanglo shares one mouse and keyboard (and clipboard and files) between
machines on the same network. This crate is its Linux core, written in
Verus: the protocol logic carries contracts that Verus proves.

- `src/` — the verified library: the macOS/Linux key map, modifier
  tracking and synchronisation, input capture and injection planning, the
  per-connection session state machine, the connection manager's control
  gates and Emergency Stop, the envelope and payload rules, and the
  bookkeeping behind the Devices, Pairing, Settings and Network pages.
  Laws that span several calls are public proof functions (`lemma_*`).
- `app/` — the program around it: sockets, framing and JSON, mDNS,
  evdev/uinput devices, X11 pointer polling, and a terminal front end.
- `tests/` — tests of the library on concrete values.
