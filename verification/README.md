# lib — the capture harness and live probes, verified

The deterministic-capture harness and the live probe fleet of a game client, as a Verus library.
Every probe is a state machine: the frame loop reads an observation of the world, calls the
machine's `step`, and performs the effects it gets back. Each `step` is proved to compute exactly
the spec function `next` of its module, and the `*_laws` proof functions state what every frame
keeps (verdict counters, cleanup on every exit, the testing lever left as found, verbs aimed at
the right target).

Layout:

- `src/text.rs`, `src/knobs.rs`, `src/pixels.rs`, `src/probe_clock.rs` — text, environment knobs,
  pixel and bone lists, the probe clock.
- `src/registry.rs` — the `WOW_PROBE*` variable registry and its wall-clock column.
- `src/capture.rs`, `src/scenario.rs`, `src/live_shot.rs` — the capture run's lifecycle, its
  lane and fixture setup, and burst paths.
- `src/charcreate.rs`, `src/auction.rs`, `src/bank.rs`, `src/chest.rs`, `src/binder.rs`,
  `src/clam.rs`, `src/charter.rs`, `src/bg_queue.rs`, `src/castcancel.rs`, `src/phase.rs`,
  `src/bg.rs`, `src/bg_run.rs` — the probes; `src/*_laws.rs` hold the cross-frame laws.
- `tests/` — scenarios on concrete values.
- `app/` — the process edge: environment reads handed to the library, the registry printout.
