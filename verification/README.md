# fishing_view

The decision logic of a fishing mini-game, verified with Verus.

- `src/state.rs`: the fishing state machine (idle, casting, reeling the
  empty lure, reeling a hooked fish), how one frame of events settles, the
  transition hooks and the run conditions of the per-frame systems.
- `src/gear.rs`: cycling through the rods, lines and lures of the inventory
  and the gear that each inventory name stands for.
- `src/population.rs`: the nightly restocking of the two ponds and the ocean.
- `src/motion.rs`: how a fish picks its heading.
- `src/area.rs`: what is in sight when an area is shown.
- `src/reel.rs`: debris caught on the line, landing a fish, the drawn line,
  the splash and the rod's turn.
- `src/random.rs`: the dice, drawn from `rand`'s thread-local generator.

`app/` holds the engine side: the engine copies of the library's types and
the floating-point gear data and computations, which hand their outcomes to
the library.
