# lotus_engine

The bookkeeping of the Lotus 2D game engine, verified with Verus.

- `src/` is the verified library: timers (`time`), sprite-sheet animation
  states (`sprite_sheet`), keyed caches for render resources and textures
  (`cache`), index buffers of geometric forms (`shape`) and of laid-out glyphs,
  the list of entities to draw and the cache ids of entities (`rendering`),
  shader indices (`render`, `rendering`), the built-in font table (`text`) and
  the engine's small kinds and settings, and the renderer's per-frame
  decisions (`frame`): what each entity is drawn as, in what order, what to do
  with the surface's outcome, which sizes and surface format are taken.
- `app/` holds what works on floating-point values, files and outside types:
  physics components, vertex arrays and glyph quads, texture coordinates of
  tiles, text positions, colors, shapes and the window configuration, timers
  fed with frame times in seconds, font bytes and the WGPU present mode, and
  the loops that run the verified frame plan and text layout step.
- `tests/` exercises the library on concrete values.
