# bevy_iced

The verified core of a Bevy plugin that runs Iced user interfaces.

- `src/` is the library, verified with Verus:
  - `systems`: a frame's input messages become the queue of user interface
    events; the held modifier keys are read from Bevy's `ButtonInput<KeyCode>`.
  - `context`: the cursor a display uses, the per-message-type interface
    caches, and what a display leaves behind.
  - `render`: the draw flag handed from the main world to the render world,
    the extraction, the render pass's decision, and the viewport.
- `app/` is the Bevy and Iced side: the plugin, the systems that read Bevy's
  worlds, the Iced user interface and the GPU render node. It calls the
  library for every decision above.
- `tests/` exercises the library on concrete values.
