# character_controller

The decision logic of a third-person kinematic character controller, verified
with Verus, and the Bevy/avian3d program around it.

- `src/player.rs`: the movement state machine (idle, walking, running,
  jumping, falling, crouching, floating and flying), double-press detection,
  the per-update movement plan (speed class, horizontal and vertical velocity
  rules including dive and flight, jump, capsule shape), the vertical contact rule
  and the crouch collider bookkeeping, with the law that the collider's centre
  always matches the current shape.
- `src/animation.rs`: which clip plays in each state, when a new clip starts
  and how it is played, the clips' asset labels.
- `src/camera.rs`: the TPS/FPS view toggle, the zoom rule and the cursor lock rule.
- `src/world.rs`: roof sizes, the wall layout of the modular buildings (every
  wall segment placed exactly once) and the one-time sky box set-up step.
- `app/`: the game itself: input, shape casts, floating-point motion and
  camera orbit, spawning, and the systems that apply the library's decisions.
