# fact_core

A verified core for a file-activity tracker. Kernel-side probes report file
operations (open, creation, unlink, chmod, chown, rename), process steps
(fork, exec, exit) and socket activity (listen, accept, connect); this library turns
those records into events, turns events into the messages sent to the
compendium service and back, and decides how the compendium's process table
follows each event.

Layout:

- `src/ebpf.rs` — the kernel records, held as plain values.
- `src/event/` — events; `sanitize_d_path` for the kernel's path buffers;
  conversion of records into events; `wire.rs` turns events into wire
  messages and back; `laws.rs` and `message_laws.rs` state and prove how
  these operations relate (host paths read back, events and messages
  survive a round trip).
- `src/api.rs` — the wire messages.
- `src/ip/` — IP addresses and their text form, with the proof that the
  text reads back as the address.
- `src/path.rs` — Unix paths as bytes: NUL-terminated buffers, file name,
  parent, join.
- `src/text.rs` — UTF-8 conversions done by std.
- `src/store.rs` — the compendium's process-table updates.
- `app/` — logging set-up, the MongoDB store and the message loop.
