# OpenLogi Easy-Switch

Decisions of an Easy-Switch companion for Logitech keyboards and mice, verified
with Verus.

- `src/host_switch/` – what a keyboard's host keys mean, how they are captured
  and put back, which linked devices are moved and in what order.
- `src/watcher.rs`, `src/manager.rs`, `src/manage.rs` – which capture sessions run and when ended
  ones are taken up again.
- `src/devices/` – the list of devices that a user sees.
- `src/followers.rs`, `src/panel.rs` – which devices follow a keyboard, as users
  see and edit it.
- `src/diagnostics/` – read-only probes and the host report.
- `src/text.rs`, `src/seqs.rs`, `src/sorting.rs` – texts, sequences and stable
  sorting.
- `app/` – drivers that talk to devices, keep time and print.

Every procedure that talks to a device is a machine: it names the next
operation, is handed what came of it, and names the next one. The files that end
in `_laws.rs` state what holds of a machine or a list as a whole.
