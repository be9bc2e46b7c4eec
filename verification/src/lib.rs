//! Verified core of a WebGL chart canvas: buffer bookkeeping, vertex layouts,
//! binary font tables, path conversions and the small decisions that sit between
//! the geometry code and the GPU calls.

pub mod attributes;
pub mod canvas;
pub mod convex_hull;
pub mod edge_shader;
pub mod font;
pub mod glyph_shader;
pub mod hit_canvas;
pub mod path_ops;
pub mod poly_line;
pub mod range;
pub mod shader;
