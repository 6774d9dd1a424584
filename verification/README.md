# sandk_offroad

The rules of the SandK Offroad game, verified with Verus, and a thin Bevy
shell around them.

- `src/` is the verified library: game state changes, asset loading
  bookkeeping (queues, progress, priority bands, vehicle configuration files),
  light culling tiles and buffer layout, the volumetric texture layout, trail
  buffers and trail mesh indices, collision buffer limits, the weather
  transition and particle placement, box emitter faces, post-processing
  profiler windows and the effect showcase. Each public function states its
  result in its contract; the `lemma_*` proof functions state the laws that
  hold across calls.
- `tests/` runs the library on concrete values.
- `app/` is the game shell: Bevy systems, file listing, asset loaders and the
  floating-point parts (easing curves, colour gradients, emitter sampling,
  lighting fits, frame-time statistics).
