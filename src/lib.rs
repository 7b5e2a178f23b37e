//! Polygons as ordered, non-empty sequences of rings, and their conversion to
//! and from the form in which they are exchanged with a host runtime.

pub mod point;
pub mod poly;
pub mod ring;

pub use point::Point;
pub use poly::{ElixirPoly, Poly, PolyError};
pub use ring::{ElixirRing, Ring};
