//! Outline geometry for the glyphs of a circular Gallifreyan-style alphabet.
//!
//! A letter placed at a polar position becomes an ordered list of parts
//! (circles, arcs, dots and radial ticks), and each part becomes strokes:
//! sequences of points to be drawn as polylines or markers. All of it is
//! exact: angles are counted in thousandths of a degree, lengths are
//! fractions, and a point of the plane is kept as a sum of polar vectors.
//! Turning those sums into floating-point coordinates is left to the
//! renderer.

pub mod angle;
pub mod geometry;
pub mod letters;
pub mod parts;
pub mod sampler;
