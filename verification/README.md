# verbalix

The verified core of Verbalix, a writing companion that transforms the text
selected in any application and interprets speech live.

- `src/` is the library, verified with Verus: the selection state machine and
  its leases (`coordinator`, `transform_lease`, `mutation_journal`), the
  readiness of the AI features and the backend configuration
  (`ai_readiness`), preference merging and its bookkeeping
  (`remote_preferences`, `preferences_sync`), the runtime pause gate
  (`runtime_pause`), live interpretation (`live`, `live_queue`,
  `live_control`, `live_worker`, over the ordered map of `ordered_keys`), the wire formats of the backend
  (`voice_stream`, `wav`), playback routing (`playback`), diagnostics
  (`diagnostics`, `latency`) and the small text functions they share (`text`).
- `tests/` runs the library on concrete values.
- `app/` is the program around the library: configuration from the
  environment, files, the keychain, HTTP calls, the live worker thread.
