# ui

The logic of a small retained-mode UI toolkit, verified with Verus: input
bindings, placement of elements in rectangles, grids and their pagination,
the state machines of buttons, list boxes, sliders and one-line text boxes,
and the parsing of position strings.

- `src/` is the verified library. Each module states its behaviour in
  `requires`/`ensures` contracts over spec functions and views, and the
  properties that relate several operations are proved as `pub proof fn`
  lemmas next to the code they speak about.
- `tests/` runs the library on concrete values.
- `app/` is the program around it: the window and its event loop, the
  conversions from SFML's events and keys to the library's inputs, the
  settings file (serde copies of the binding types), and the floating-point
  view scaling.

Rendering, font metrics and textures stay with the caller: where the
library needs what a font measures (which characters are shown, where a
point falls in a text, how wide a glyph is), it takes those numbers as
arguments.
