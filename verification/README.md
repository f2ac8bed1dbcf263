# eldritch_horror

The game logic of a small first-person game built on an engine in the
olcPixelGameEngine style, as a Verus-verified library.

- `src/player.rs`: what a frame of key input asks for (velocity impulses,
  mesh re-shading, render-layer toggle) and the mouse cursor shape, with the
  laws that hold of them.
- `src/render.rs`: whether a custom render layer is drawn, and the layout of
  its pass (bind-group slots, attachments, draw ranges).
- `src/game.rs`: the game object: texture slot numbering at start-up, the
  per-frame verdict (Escape ends the game) and shutdown.
- `app/`: the program around it: the engine callbacks, file loading, the
  floating-point camera and velocity arithmetic, and the wgpu calls.
