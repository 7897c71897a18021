# juni

The rules of the juni 2D game, its level editor and a small slot-machine
demo, written in Verus with their behaviour stated as contracts and proved.

## Layout

- `src/` — the verified library.
  - Levels and classification: `level`, `classification`, `tag_edit`,
    `sorting`, `ids`, `editor`, `shortcuts`, `status`, `text_entry`,
    `sprite_cells`.
  - The editor as a state machine: `editor_step` (one frame of keys and
    mouse: state and event in, next state and action out, with the
    follow-ups for reading a sheet, cutting a tile, saving and reloading)
    and `canvas` (the mouse on the canvas of the windowed editor, and its
    side panel's Apply).
  - Game rules: `screens`, `transition`, `menu`, `loc`, `animation`,
    `portals`, `portal_pairs`, `squeeze`, `chain`, `player`, `slots`.
  - Shared helpers: `color`, `text`.
- `tests/` — tests of the library.
- `app/` — ordinary Rust around the library: reading and writing level and
  translation JSON, the clock, and the floating-point geometry, collision,
  chain physics and timing that drive the verified rules; `editor_frame`
  builds each editor frame's event (hit tests, drag geometry) and carries
  out the file work its action asks for.

Shape coordinates are kept in the library as the bit patterns of `f32`
values; `app/` converts them.
