# sensorium

A typed substrate of workspace observations for an agent, the decisions its
producers make when they update it, and the voice-input machinery that turns
utterances into predication tokens. The library in `src/` is written in Verus
and proved against its contracts. A few functions only pass on what the
machine or a caller's implementation gives (`Monotonic::now`,
`Observer::current`), and a voice-activity model promises only what its own
`predicts` states.

## Layout

- `src/substrate/` — the substrate types: primitives, privacy tiers and
  markers, the bounded ring, generations and stream updates, timestamps,
  sensors and calibration, entities, gaze, biometric and posture snapshots,
  user state, provenance, tokens, and the shared workspace context with its
  builder and snapshots. Measurements are single-precision values held as
  their bit patterns (`FloatBits`), ordered and compared for equality as
  IEEE floats.
- `src/context.rs` — how an observer turns a file-system event, a focused
  file or the frontmost application into a new workspace state.
- `src/voice/` — transcript deltas and the scripted backend, the
  voice-activity model surface, the hysteresis detector, and the session that
  mints one generation per utterance.
- `tests/` — behavioural tests of the library.
- `app/` — what stays outside the proofs: observers that own mutexes and
  threads, the `notify` file watcher, the macOS frontmost-application poller,
  the floating-point energy detector, microphone capture, `thiserror` error
  types, and serializable copies of the value types.

## What is proved

Besides each function's contract, the library states and proves laws such as:
composing privacy tiers is a join and permissions shrink as tiers tighten; a
ring holds exactly the newest `N` items pushed; the seven-primitive taxonomy is
closed; tightening thresholds is monotone in load, arousal and fatigue; the
detector's boundaries alternate and each needs its full run of qualifying
chunks; the voice driver hands the model consecutive full chunks and flushes
once per end of speech; stream-update mapping is a functor; successive
utterances get strictly newer generations until the counter wraps; and a
flush sends the scripted backend's next transcript on the token channel and
on the stream channel, while any run of flushes follows the script.
