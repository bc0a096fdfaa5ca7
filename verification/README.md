# my_blaster_runs_hot

A twin-stick shooter (the player, blue; enemies, red; civilians, green) built
on Bevy and Rapier. The game's rules live in a library verified with Verus;
the engine side (rendering, physics, input, files, randomness and everything
measured in floating point) is an ordinary Rust program around it.

## Layout

- `src/` – the verified rules:
  - `utils` – the cooldown timer (in nanoseconds) and its laws;
  - `states` – game states and sprite-sheet animation rows, with the laws that
    an animation stays in its row and loops;
  - `rounds`, `spawn_manager` – the rounds of a game, the spawn queue and the
    per-frame spawn plan (round over, next round, game over);
  - `projectile_collision`, `blaster`, `civilian`, `player` – what contacts,
    hits and lost lives do to shots, health, lives and score;
  - `player`, `enemy` – movement animation, blaster firing and overheating,
    the player's death;
  - `collision_groups` – which bodies the physics engine lets touch;
  - `gamepad`, `game_over`, `graphics` – controller hand-over, the quit button,
    sprite frames.
- `tests/` – tests of the library on concrete values.
- `app/` – the Bevy program: systems read the world, call the rules and apply
  their results.
