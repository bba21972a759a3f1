//! From drawing elements and path commands to geometries.

pub mod classify;
pub mod command;
pub mod element;
pub mod error;
pub mod flatten;
pub mod path;
pub mod shape;
pub mod svg;

pub use self::classify::classify;
pub use self::classify::parse_path_segments_to_geom;
pub use self::classify::Kind;
pub use self::command::apply;
pub use self::command::calculate_svg_coord2;
pub use self::command::reflect_point;
pub use self::command::Command;
pub use self::command::Cursor;
pub use self::element::element_source;
pub use self::element::events_to_source;
pub use self::element::svg_to_source;
pub use self::element::Attribute;
pub use self::element::Element;
pub use self::element::Source;
pub use self::error::InvalidSvgError;
pub use self::error::SvgError;
pub use self::error::SvgGeometryCollectionForGeometryError;
pub use self::error::SvgUnsupportedGeometryTypeError;
pub use self::flatten::flatten_cubic;
pub use self::flatten::flatten_quadratic;
pub use self::flatten::SAMPLES;
pub use self::path::single_geometry;
pub use self::path::commands_to_geometry;
pub use self::path::commands_to_geometry_collection;
pub use self::path::commands_to_subpaths;
pub use self::shape::measures_to_line;
pub use self::shape::measures_to_rect;
pub use self::shape::svg_line_to_geometry;
pub use self::shape::svg_polygon_to_geometry;
pub use self::shape::svg_polyline_to_geometry;
pub use self::shape::svg_rect_to_geometry;
pub use self::shape::Measure;
pub use self::svg::attributes_to_measures;
pub use self::svg::source_to_geometry_collection;
pub use self::svg::svg_d_path_to_geometry;
pub use self::svg::svg_d_path_to_geometry_collection;
pub use self::svg::svg_to_geometry;
pub use self::svg::svg_to_geometry_collection;
