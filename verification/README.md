# rust_fps

A small first-person game built on macroquad. The crate is split in two:

- `src/` is a library verified with Verus: key bindings (`input`), the
  per-frame input state, the settings menu (`menu`), the single-page
  controls overlay (`game::ui`), the per-frame decision between rebinding,
  menu and gameplay (`game::update_frame`, `game::game::update_frame`),
  what the player's hands hold (`game::Hands`), and which enemies a
  thrown object has hit (`world::HitEnemies`).
- `app/` is the program: the window, polling the keyboard and mouse,
  storing the bindings as JSON, and the floating-point parts of the game
  (movement, camera, physics, health and stamina, drawing).
