# chart_canvas

A WebGL chart canvas whose bookkeeping and binary formats are verified with Verus.

- `src/` is the verified library (no floating point): index ranges of buffers to
  re-upload, interleaved vertex attribute layouts, the binary font table and its
  glyph paths compiled into triangles, conversions between path encodings, the
  dash pattern texture and the glyph / arrow tip tables of the shaders, the
  attribute table of a shader program, read-back of hit-canvas object ids, the
  layout of the canvas speed test and the discrete parts of poly line
  triangulation.
- `app/` is the browser side: WebGL calls through `web-sys`, font fetching, and
  the floating-point geometry (view transforms, curve sampling, hull tracing).
- `tests/` exercises the library on concrete values.
