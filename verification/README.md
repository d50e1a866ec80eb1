# dodge_creeps

The game logic of a small "Dodge the Creeps" game for the Godot engine,
verified with Verus.

- `src/` is the verified library. Each engine event (a key state, a timer
  timeout, a collision, a button press) is handed to a function that returns
  the new state and the list of actions to perform on the scene tree:
  - `decimal`: the decimal text of a score, with the proof that it reads back
    as the score;
  - `player`: movement direction from the keys, the sprite's animation, and
    readying, starting and hitting the player;
  - `mob`: the random choice of a mob's animation;
  - `hud`: the display's messages, start button and score label;
  - `main_scene`: setting up the scene, a round of the game (new game, start
    delay, score ticks, game over) and the scene-loading checks;
  - `routes`: which signal of which node reaches which handler.
- `app/` holds the native classes that Godot loads (through `gdnative`): they
  read the engine, call the library and perform the actions it returns.
  Floating-point geometry (player movement, mob trajectories, colors) stays
  there.
- `tests/` runs the library on concrete values.
