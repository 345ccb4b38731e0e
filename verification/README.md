# rs_wgpu_cube

A WebGPU renderer that simulates light propagating over a 2D field: a compute
shader advances the field each frame, and every fifth frame a fragment shader
draws it on a full-screen quad.

- `src/` is the verified library (Verus):
  - `encoding.rs`: the little-endian layout of 32-bit words in GPU buffers,
    with the proof that every word is read back unchanged.
  - `renderer.rs`: the vertex buffer, the simulation's uniform buffer and the
    accumulator's initial contents, byte for byte; the per-frame schedule
    (`Data::begin_frame`): counter, ping-pong flag, which accumulator half is
    cleared, the compute dispatch, and when a frame is presented; the vertex
    format and draw topology, which the program converts to wgpu's.
  - `state_machine.rs`: the window-side decisions: resizing, the event-loop
    answers, the choice of the surface format.
  `f32` values are carried as their IEEE-754 bit patterns; the library lays
  them out and copies them, and the one `f32` addition (the simulation clock)
  is done by the caller.
- `app/` is the program: window and event loop (winit), GPU resources and
  command submission (wgpu). It hands the library plain values and performs
  what the library's plans say.
- `tests/` runs the library on concrete values.

The shaders are read at run time from `shaders/*.wgsl`.
