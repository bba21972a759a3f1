//! Reads the path data of vector drawings into geometries, and writes
//! geometries back as drawing elements.
//!
//! Numbers are doubles, and the library holds each one as its 64 bits. It
//! copies and compares them. Whatever has to be computed from them it asks of
//! its caller, as an [`arith::Op`], and where a number is to be written it
//! leaves a [`geo_svg_writer::Piece`] in the place of its text.

pub mod arith;
pub mod geo_svg_reader;
pub mod geo_svg_writer;
pub mod geometry;
pub mod round_trip;
