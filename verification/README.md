# tux_pdf

A PDF generation library whose core is written in Verus: fonts, text encoding, the
ToUnicode character maps, images, layers, the dictionaries of a document and writing it,
each with its behaviour stated as a contract and proved. Of tables, the library holds
their validation and the split of their rows over pages; measuring and drawing them works
in floating point and is not part of it.

## Layout

- `src/` — the verified library.
  - `font`, `font_face`, `font_map`, `ttf`: built-in fonts, TrueType/OpenType faces read
    with `ttf-parser` (each query behind a small trusted wrapper whose result is named),
    the glyph → character map, text encoding, registration of fonts under unique ids, and
    the data a CID font dictionary is made of.
  - `cmap`, `text_out`: the ToUnicode CMap text, its blocks and the width runs of a font.
  - `svg_glyph`: the SVG document of a colour glyph, sized and with the other glyphs hidden.
  - `pdf_object`, `pdf_dicts`, `pdf_types`: a model of PDF objects and the dictionaries of
    fonts, font descriptors, pages, the page tree, the catalog and the document information.
  - `writer`: which object ids the objects of a document get, and what the page tree,
    catalog and trailer refer to; `document`: a document's metadata, resources and pages;
    `write`: the whole document written as numbered objects (information, layers, pages,
    fonts, images, shared resources, page tree and catalog), content streams encoded by
    `lopdf` behind a trusted wrapper.
  - `ops`: content stream operators and the writer that collects the operations of a
    content stream (layers and marked content sections); `actions`: JavaScript actions.
  - `pages`: which rows of a table go on which page, the header repeated on each;
    `emoji`: the operations that draw the glyphs of a colour emoji font as cached images
    and show the others as text.
  - `key_order`: the order of string keys (by their UTF-8 bytes), which the keyed maps of
    fonts, layers and external objects keep their entries in.
  - `text_style`: text styles and their overrides.
  - `geometry`, `styles`, `text`, `layout`, `table`, `image`, `resources`, `conformance`,
    `ids`: positions and paths, margins, text items and lines (and where overflowing text
    is cut), blank space, tables, image pixel layouts, layers, external objects and the cache
    of emoji images, conformance levels, random and fresh ids.
- `tests/` — tests of the library, run against the real `ttf-parser`.
- `app/` — what works in floating point (points and millimetres, text measuring and where
  text stops fitting, width scaling) and what stores the written objects in a
  `lopdf::Document` and saves it.

## Units

The geometry and text types are generic over their unit. Arithmetic on a unit is stated
through vstd's specifications of `std::ops`, so the contracts pin results for integer units;
floating-point units (`Pt`, `Mm`) live in `app/`.
