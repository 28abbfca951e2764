# decision_compass

Compass directions read as decision strategies, and progress tracking along a
plan of waypoints, verified with Verus.

- `src/cardinal.rs`, `src/ordinal.rs`: the cardinal, ordinal and compass
  directions, their labels, strategies and grid offsets, with the laws that
  relate them (opposites, offsets, listings).
- `src/navigation.rs`: waypoints and navigation plans, generic over the
  position and tolerance types; advancing, updating, counting reached waypoints.
- `app/`: the floating-point geometry (bearings, deviations, distances,
  closest direction, obstacle avoidance) built on the library.
