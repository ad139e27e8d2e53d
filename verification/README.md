# fluid_webgpu

Lattice Boltzmann fluid simulations (channel flow past obstacles, a
lid-driven cavity, pigment diffusion, ink painting) that run on the GPU.

`src/` is the verified library: everything the simulations decide on the
CPU, with contracts proved by Verus.

- `lattice`: the material of every lattice cell for each flow, and the
  row-major material array uploaded at start-up.
- `obstacle_row`: the row count divided by 1.25 in single precision and
  truncated, computed exactly with integers (the third channel obstacle's
  row).
- `d2q9`: the nine-velocity stencil and its weights, with its moment laws.
- `grid`: workgroup counts and buffer sizes over a lattice.
- `collide_stream`: the per-direction uniforms and the dispatch order of the
  collide-and-stream pass.
- `setup`, `ink`, `particles`: what each simulation allocates and binds, and
  with which shaders; `ink` also keeps the brush that touches paint.
- `frame`: the passes of a frame, frame throttling, and the frame state of
  the memory-optimised simulation.
- `shader`: the shader paths.

`app/` holds the GPU side: single-precision uniforms, buffer creation with
wgpu, and the surface views built on idroid and uni_view.
