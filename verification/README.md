# estrella

Receipts for thermal printers, built from components and compiled to a
sequence of printer operations (`ir::Op`). The library is written in Verus:
every public function states in its contract the exact operations it emits.

- `src/ir.rs` — printer operations, their mathematical values (`OpV`), the
  printer's character-style state and how operations change it.
- `src/text.rs` — string building stated over character sequences: byte
  lengths, cutting on character boundaries, padding, replacement.
- `src/components/` — the builder API (`Receipt`, `Text`, `Header`,
  `LineItem`, `Total`, `Divider`, `Columns`, barcodes, images, markdown).
- `src/markdown.rs` — markdown rendering as a state machine over the events
  of a CommonMark parse (`pulldown-cmark`).
- `src/document/` — the document model: components with options (patterns,
  charts and canvases are held as data; they print as rasters, which this
  library does not render, so compiling refuses them), banners
  that fit their content, tables with proportional columns, variable
  interpolation, compilation to a program, raster content bounds and the
  layout of canvas elements from their measurements.
- `src/art/` — the integer parts of the generative patterns: name lookups,
  the pseudo-random hash, cellular automata, weave and feed geometry.
- `app/` — JSON (serde) models with shorthand component objects, the
  displayable error, and floating-point amounts and lengths.

Laws proved in `src/` include: a banner takes the widest width that fits;
table columns use up the available width; interpolation leaves text without
placeholders unchanged and user variables override the built-in ones; every
component switches off each style it switches on (markdown when its tags
open and close in order), so a document ends in the plain style; a document
program is framed by a printer reset and, when asked, a cut, with no other
cut inside; flowing canvas elements do not overlap and a recorded element
maps back to its origin.
