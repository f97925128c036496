# boids

A GPU predator–prey boids simulator whose command-line handling and
bookkeeping are proved correct with Verus.

- `src/` is the verified library:
  - `cli` reads the command line (interactive, headless with options, help)
    and words every refusal; the floating-point readings of the ratios (each
    one, and their total) are handed in by the caller;
  - `decimal` parses and writes unsigned decimal numbers;
  - `schedule` cuts a headless run into GPU batches that end on every
    report frame;
  - `report` writes population records as CSV or JSON Lines;
  - `causes` keeps rolling per-cause sums of births and deaths;
  - `graph` decides, sample by sample, when the population graph gains,
    halves or trims points and how many samples each point averages;
  - `tally` accumulates births and prey eaten for the audio controls;
  - `sim` holds the integer pieces of boid setup, workgroup counts and the
    window layout.
- `app/` is the program around it: the wgpu compute and render passes, the
  window and egui overlay, audio output, and the floating-point parts
  (initial boid placement, graph averaging and drawing, audio control curves).
- `tests/` runs the library on concrete inputs.

The shaders are read at run time from `boids.wgsl` in the working directory.
