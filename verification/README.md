# Lumina

Lumina is a small 2D/3D game engine with an in-engine editor and a
scripting layer (LuminaScript, run by `rhai`). This crate holds its logic
with machine-checked contracts, written in Verus.

## Layout

- `src/` is the verified library:
  - `color` - RGBA colors and their `#rrggbb` / `#rrggbbaa` form;
  - `input`, `keys` - key and mouse-button edge state, default key codes;
  - `ecs` - the entity world over `hecs`, with its deferred despawn queue;
  - `editor` - editor state and the effect of every menu and panel action;
  - `compiled`, `script` - compiled scripts tied to their text, and the
    hot-reload rules;
  - `obj`, `mesh` - the OBJ text layout and the built-in index layouts;
  - `rng` - the particle system's xorshift generator;
  - `frame` - when the renderer reconfigures its surface or skips a frame;
  - `transform`, `audio` - the spatial transform and the silent backend.
- `app/` is the engine program around it: window and event loop (`winit`),
  rendering (`wgpu`), the editor UI (`egui`), audio, file I/O, and all
  floating-point work (time, cameras, particles, sprites).
- `tests/` exercises the library on concrete values.

The properties that hold across calls are stated and proved as the public
`proof fn`s whose names begin with `law_`.
