//! From geometries to drawing elements and path data.
//!
//! What is written is a run of [`Piece`]s: the words of the markup as they
//! stand, and each number in the place where its text belongs.

pub mod lines;
pub mod piece;
pub mod polygons;
pub mod shapes;

pub use self::piece::render;
pub use self::piece::Piece;
pub use self::shapes::ToSvg;
pub use self::shapes::ToSvgString;
