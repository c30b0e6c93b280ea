# multiseat

The seat and device logic of a multiseat manager for Linux, verified with
Verus, and a small terminal front end.

- `src/` is the verified library:
  - `text` — operating-system strings (bytes) and the string operations the
    logic needs (UTF-8 decoding, search, prefixes, decimal numbers).
  - `udev` — what is read of the udev database: devices, their parents and
    properties; which seat a device belongs to; the devices of a seat.
  - `utils` — seats and their names, the grouping of a seat's devices into
    graphics cards (with display ports) and other devices, and the steps of
    deleting a seat.
  - `options` — the seat choices for moving a device, including the label
    of a new seat.
  - `input` — the USB device an input event node belongs to.
  - `icons` — icon names and vendor logos.
  - `components` — the state machines of the panels and dialogs.
  - `manager` — the controller of the manager window.
- `app/` runs the controller from the terminal and talks to logind (D-Bus),
  udev and evdev.
- `tests/` exercises the library on concrete values.
