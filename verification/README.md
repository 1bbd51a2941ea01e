# stroke_lab

The input and session logic of a pressure-sensitive stroke drawing lab,
written in Verus with its behaviour stated as contracts and proved.

- `src/` is the verified library: tools and pointer state, brush-size
  gestures, the colour selector's drag state, keyboard shortcut plans,
  the renderer menu, presentation modes, the vector surface choice and
  the small texts of the heads-up display. Positions, sizes and pen
  readings are generic, so the library decides without touching floats.
- `tests/` exercises the library on concrete inputs.
- `app/` is the Bevy program around it: windowing, rendering, colour and
  geometry arithmetic in floating point, and file I/O. It hands the
  library plain values and carries out what the library decides.
