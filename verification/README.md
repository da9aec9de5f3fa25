# game_logic

The rules of a small top-down action game, verified with Verus.

- `src/player.rs`: the player character. Input of one frame becomes
  velocity, facing, the sprite animation to play and whether a bullet is
  thrown; health is taken and healed within `0..=MAX_HEALTH`.
- `src/demon_king.rs`: the demon king boss. Its health, and the schedule of
  its timers: attack (volley, summoning or kick), bullets of a volley,
  teleporting out and in.
- `app/lib.rs`: the engine side (Godot through gdnative). It reads input,
  random numbers and positions, hands them to the rules, and plays the
  sounds, particles, animations and timers that the rules choose.
- `tests/`: tests of the rules on concrete values.
