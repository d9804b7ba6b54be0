# star_journey

The rules of Star Journey, a small vertical space shooter, as a verified
library, and the Bevy application that drives it.

- `src/` — the library, verified with Verus: screen and pause flow
  (`game`, `screens`), menu navigation (`menu`, `title`, `pause`,
  `game_over`), collisions, shields and projectile hits (`combat`),
  asteroid waves (`asteroids`), the background star pool (`stars`),
  soundtrack switching (`audio`) and the control bindings (`input`).
- `app/` — the Bevy application: rendering, input devices, timers, audio
  playback and floating-point motion; it hands the library plain values and
  applies what the library decides.
- `tests/` — tests of the library.
