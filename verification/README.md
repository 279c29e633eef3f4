# dde_audio

Verified core of the deepin audio service (the `org.deepin.dde.Audio` bus
service that speaks the PulseAudio protocol).

- `src/` — the library, verified with Verus:
  - `manager::coordinator` — one port-changing operation at a time, with
    cancellation and re-prioritisation;
  - `manager::card` — cards, profiles, the one-shot outcome of a status
    change, and the card decisions on device creation and removal;
  - `manager::device_manager` — the device tables (devices, defaults,
    pending profile switches, server module states, level meters), name
    lookups, the card listing and the icon type of ports;
  - `manager` — start-up filling of the tables and the steps of loading a
    server module;
  - `manager::event_loop` — what to do for each server notification, and
    the worker that merges bursts of automatic-switch requests;
  - `manager::mono` — what switching mono output on or off takes;
  - `manager::{meter, sink, sink_input, source, registry}` — bus paths,
    meter volume, device lifecycle in the tables and registry records;
  - `backend::pulse` — server descriptions turned into records, request
    outcomes, the module loading states, and the device registry kept from
    notifications.
- `app/` — ordinary Rust around it: the audio service and its main bus
  object, the server connection and its requests,
  conversion of libpulse descriptions (and all floating-point volume work),
  the per-device bus objects, the device work of the event loop, record
  copies with serde derives, the card listing in JSON, blocking waits, the
  coordinator guard, the event threads and the meter bus object.
- `tests/` — tests of the library.
