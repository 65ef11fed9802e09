# sbf_engine

The core of a small Vulkan-oriented game engine, written in Verus with its
behaviour stated in contracts and proved.

## Layout

- `src/` — the verified library.
  - `text` — splitting at spaces and decimal parsing of index lists.
  - `model` — the generic model container with merging, and the static
    vertex type with its little-endian binary file format (a write followed
    by a read gives the model back).
  - `collada` — the COLLADA document tree and the decoding of triangle
    indices, float-array sources and node transforms, with a typed error for
    every way a document can be malformed.
  - `defs` — input abstractions, rendering descriptions and the error type.
  - `engine` — cameras, controls (a keyboard-driven direction state
    machine), scene switching over a lock-free queue, timers, texture and
    model decoding, skybox and UI quad generation, and what the window's
    event loop does with each event.
  - `renderer` — the null renderer, pipeline configuration, and the
    decisions that a Vulkan renderer takes from what a device reports
    (feature sets, queue families, device choice, swapchain support and the
    swapchain request, image acquisition outcomes, pass and framebuffer
    formats, buffer sizes).
- `tests/` — tests of the library, run against the real outside crates.
- `app/` — what needs the outside world: XML and TOML reading, files,
  floating-point maths, windows and events, Vulkan device queries, and the
  engine loop over user-implemented traits.
