# inputplumber

The decisions of a daemon that collects input events from handheld controllers, written and proved
in Verus.

`src/` is the library. It takes what was read from devices and files as plain values, and hands back
what has to be written, sent or waited for. It performs no input or output and uses no floating
point numbers; those that pass through it are carried as bit patterns.

- `drivers/` reads reports and configures devices: OneXPlayer (`oxp_hid`), MSI Claw (`msi_claw`),
  ROG Ally (`rog_ally`) and inertial sensors of the Industrial I/O subsystem (`iio_imu`).
- `input/` turns what the drivers give into events, plays force feedback effects, and carries
  sensors over a suspend.
- `udev/` reads descriptions of devices, and hides devices behind udev rules and gives them back.
- `text.rs`, `table.rs` and `float.rs` hold what these share.

Functions named `law_...` state properties that span several functions.

`app/` performs the actions around the library: HID and IIO access, files, processes and floating
point arithmetic. `tests/` runs the library on concrete values.
