# juice

Game feel ("juice") effects for the Fyrox engine, split in two:

- `src/` is the `juice` library, verified with Verus. It holds the logic that
  needs neither floating point nor the engine: the easing curve names and
  their parser, tween playback control (flags, clock and value resets, the
  per-frame step), the slow-motion phase machine and its invariant (active
  exactly when not idle), round-robin after-image slots, the trail point cap,
  the squash/stretch axis placement and the integer hash behind the shake
  effects. Laws about them are public proof functions next to the code.
- `app/` is the engine-facing crate: the seventeen Fyrox scripts, the curve
  evaluation and every other f32 computation, and copies of the library's
  enums that carry the engine's derives, with `From` both ways.
- `tests/` runs the library on concrete values.
