# screencapturekit

The logic of a set of ScreenCaptureKit bindings, written in Verus and proved
against its contracts.

- `src/` is the verified library: the lossy sample queue and the recording
  event queue behind the async API and their consumer registry, the start and
  stop protocol of an async stream, the callback registry that bridge contexts
  resolve through, the decoding of picker results and observer events, the
  batched shareable-content decoder, the audio ring buffer and capture state,
  Core Media time and frame info decoding, recording identifiers, picker
  modes, surface and pixel-buffer geometry, screenshot size checks and device
  lists.
- The queues are shared between threads behind a lock. Each public function
  over a shared queue returns, beside its result, a ghost pair: the queue as
  that call found it and as it left it, with the call's result and transition
  stated exactly over the pair. Nothing links one call's pair to the next:
  other threads may change the queue in between. The laws over runs of calls
  (oldest sample first, drop-oldest when full, a closed queue drains and then
  ends, an error is handed out once) take as their hypothesis that each call
  found the queue where the previous one left it; that no other operation ran
  in between is for the caller to know, and is not checked.
- `tests/` runs the library on concrete values.
- `app/` is the unverified glue: the Swift bridge declarations, futures and
  streams for async runtimes, one-shot completion futures, handles whose drop
  releases a registration, the observer, completion and recording-delegate
  trampolines, the audio delivery thread,
  floating-point geometry and error messages.
