//! A small reactive color-resolution engine.
//!
//! Given a color *source* (a literal color, or a path into a themed style
//! sheet) and a *display state* (base or dimmed), the engine produces a single
//! output color, blending between the base and the dimmed appearance as an
//! animated progress value moves between 0 and 1.
//!
//! All color components and blending fractions are fixed-point numbers, so
//! blending at the endpoints of the progress range is exact.

pub mod color;
pub mod path;
pub mod source;
pub mod style;
pub mod model;
pub mod engine;
