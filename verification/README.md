# Galpi · 갈피

The logic of Galpi, a local-first meeting recorder and Korean transcriber for
Apple Silicon Macs, as a Verus-verified library.

- `src/` is the library (`galpi`): the job slot and the finished meetings it
  keeps, request checks, meeting folder and artifact names, the roster and
  glossary normalisation, the settings document and where each secret lives,
  the worker command lines and environments, the worker protocol's line
  framing and results, engine readiness, and the WAV writer's sample
  accounting. Each function carries its contract, and the laws that span
  several functions are proof functions beside them.
- `app/` is the desktop side that drives it: worker processes, files, the
  microphone (cpal) and WAV writer (hound), the keychain and the settings file.
  The library's `JobGuard` has no destructor, so `app/` wraps each claimed job
  in a guard whose `Drop` gives the slot back through `Coordinator::abandon`
  when the job ends without a recorded result, an early return or a dropped
  future included. Recording folders are named after the local start time,
  which `app/` reads with `libc::localtime_r`.
- `tests/` exercises the library on concrete values.
