# rafx_renderer

The decision-making core of a small Vulkan renderer, verified with Verus.

- `src/importer.rs`: shader asset import (stable asset ids, importer results, decode errors).
- `src/pipeline_description.rs`: render-pass subpass planning (resolve lists fitted to the
  color attachments) and graphics-pipeline shader stage pairing.
- `src/renderer.rs`: asset storages to register, essential assets, waiting for assets,
  the order of a frame's command buffers, and which optional parts the renderer holds.
- `app/`: the engine-facing glue (distill importers, ash device calls, legion resources).
- `tests/`: tests of the library on concrete values.
