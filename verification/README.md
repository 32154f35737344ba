# sparrow

Bindings of the Sparrow strip-packing optimizer for C, the JVM and
WebAssembly, with their decision logic verified in Verus.

- `src/` — the verified library:
  - `run.rs`: the course of a one-call run and the codes it ends with;
  - `settings.rs`: the integer settings and their C encoding (with round-trip laws);
  - `step.rs`: the phase-by-phase session (explore once, then compress once);
  - `report.rs`: report codes and when a progress report carries the layout;
  - `explore.rs`: feasible layouts and the ordered pool of failed attempts of
    the exploration phase;
  - `rng.rs`: the generators of a run and of its phases (`rand`);
  - `paths.rs`: the output directory and the files written into it.
- `tests/` — tests of the library on concrete values.
- `app/` — the `extern "C"`, JNI and `wasm_bindgen` entry points, file I/O,
  JSON, and the calls into the optimizer core (`sparrow_core`, the
  separator, constructive and compression phases), which is a separate crate
  not contained here.
