//! Any shape, and collections of shapes, as text: the two ways of writing.

use super::lines::line_element;
use super::lines::line_segment_path;
use super::lines::linestring_element;
use super::lines::linestring_path;
use super::lines::linestring_to_svg;
use super::lines::linestring_to_svg_string;
use super::lines::multi_linestring_element;
use super::lines::multi_linestring_path;
use super::lines::multi_linestring_to_svg;
use super::lines::multi_linestring_to_svg_string;
use super::lines::one;
use super::lines::single_line_to_svg;
use super::lines::single_line_to_svg_string;
use super::piece::join;
use super::piece::join_runs;
use super::piece::nothing;
use super::piece::runs_view;
use super::piece::word;
use super::piece::Piece;
use super::polygons::multi_polygon_element;
use super::polygons::multi_polygon_path;
use super::polygons::multi_polygon_to_svg;
use super::polygons::multi_polygon_to_svg_string;
use super::polygons::polygon_element;
use super::polygons::polygon_path;
use super::polygons::polygon_to_svg;
use super::polygons::polygon_to_svg_string;
use super::polygons::rect_element;
use super::polygons::rect_path;
use super::polygons::rect_to_svg;
use super::polygons::rect_to_svg_string;
use super::polygons::triangle_element;
use super::polygons::triangle_path;
use super::polygons::triangle_to_svg;
use super::polygons::triangle_to_svg_string;
use crate::geometry::Coordinate;
use crate::geometry::Geometry;
use crate::geometry::GeometryCollection;
use crate::geometry::GeometryView;
use crate::geometry::Line;
use crate::geometry::LineString;
use crate::geometry::MultiLineString;
use crate::geometry::MultiPolygon;
use crate::geometry::Polygon;
use crate::geometry::PolygonView;
use crate::geometry::Rect;
use crate::geometry::Triangle;
use vstd::prelude::*;

verus! {

/// Writes a shape as drawing elements that stand for themselves.
pub trait ToSvg {
    /// What is written.
    spec fn svg(&self) -> Seq<Piece>;

    fn to_svg(&self) -> (out: Vec<Piece>)
        ensures
            out@ == self.svg(),
    ;
}

/// Writes a shape as path data, to stand inside the `d` of a `path`.
pub trait ToSvgString {
    /// What is written.
    spec fn svg_string(&self) -> Seq<Piece>;

    fn to_svg_string(&self) -> (out: Vec<Piece>)
        ensures
            out@ == self.svg_string(),
    ;
}

/// A shape as an element: a segment as the chain of its two ends.
pub open spec fn geometry_element(shape: GeometryView) -> Seq<Piece> {
    match shape {
        GeometryView::MultiPolygon(polygons) => multi_polygon_element(polygons),
        GeometryView::Polygon(polygon) => polygon_element(polygon),
        GeometryView::MultiLineString(chains) => multi_linestring_element(chains),
        GeometryView::LineString(points) => linestring_element(points),
        GeometryView::Line(line) => linestring_element(seq![line.start, line.end]),
    }
}

/// A shape as path data.
pub open spec fn geometry_path(shape: GeometryView) -> Seq<Piece> {
    match shape {
        GeometryView::MultiPolygon(polygons) => multi_polygon_path(polygons),
        GeometryView::Polygon(polygon) => polygon_path(polygon),
        GeometryView::MultiLineString(chains) => multi_linestring_path(chains),
        GeometryView::LineString(points) => linestring_path(points),
        GeometryView::Line(line) => line_segment_path(line),
    }
}

/// Shapes as elements, one on each line.
pub open spec fn collection_element(shapes: Seq<GeometryView>) -> Seq<Piece> {
    join(shapes.map_values(|shape: GeometryView| geometry_element(shape)), word("\n"))
}

/// Shapes as path data, one after the other.
pub open spec fn collection_path(shapes: Seq<GeometryView>) -> Seq<Piece> {
    join(shapes.map_values(|shape: GeometryView| geometry_path(shape)), nothing())
}

impl ToSvg for GeometryCollection {
    open spec fn svg(&self) -> Seq<Piece> {
        collection_element(self@)
    }

    fn to_svg(&self) -> (out: Vec<Piece>) {
        let mut runs: Vec<Vec<Piece>> = Vec::new();
        let mut i: usize = 0;
        while i < self.0.len()
            invariant
                i <= self.0.len(),
                runs@.len() == i,
                forall|j: int|
                    0 <= j < i ==> (#[trigger] runs@[j])@ == geometry_element(self.0@[j]@),
            decreases self.0.len() - i,
        {
            runs.push(self.0[i].to_svg());
            i += 1;
        }
        proof {
            assert(runs_view(runs@) =~= self@.map_values(
                |shape: GeometryView| geometry_element(shape),
            ));
        }
        join_runs(&runs, &one("\n"))
    }
}

impl ToSvgString for GeometryCollection {
    open spec fn svg_string(&self) -> Seq<Piece> {
        collection_path(self@)
    }

    fn to_svg_string(&self) -> (out: Vec<Piece>) {
        let mut runs: Vec<Vec<Piece>> = Vec::new();
        let mut i: usize = 0;
        while i < self.0.len()
            invariant
                i <= self.0.len(),
                runs@.len() == i,
                forall|j: int| 0 <= j < i ==> (#[trigger] runs@[j])@ == geometry_path(self.0@[j]@),
            decreases self.0.len() - i,
        {
            runs.push(self.0[i].to_svg_string());
            i += 1;
        }
        proof {
            assert(runs_view(runs@) =~= self@.map_values(
                |shape: GeometryView| geometry_path(shape),
            ));
        }
        join_runs(&runs, &Vec::new())
    }
}

impl ToSvg for Geometry {
    open spec fn svg(&self) -> Seq<Piece> {
        geometry_element(self@)
    }

    fn to_svg(&self) -> (out: Vec<Piece>) {
        match self {
            Geometry::MultiPolygon(polygons) => polygons.to_svg(),
            Geometry::Polygon(polygon) => polygon.to_svg(),
            Geometry::MultiLineString(chains) => chains.to_svg(),
            Geometry::LineString(chain) => chain.to_svg(),
            Geometry::Line(line) => {
                let mut ends: Vec<Coordinate> = Vec::new();
                ends.push(line.start);
                ends.push(line.end);
                proof {
                    assert(ends@ =~= seq![line.start, line.end]);
                }
                linestring_to_svg(&LineString(ends))
            },
        }
    }
}

impl ToSvgString for Geometry {
    open spec fn svg_string(&self) -> Seq<Piece> {
        geometry_path(self@)
    }

    fn to_svg_string(&self) -> (out: Vec<Piece>) {
        match self {
            Geometry::MultiPolygon(polygons) => polygons.to_svg_string(),
            Geometry::Polygon(polygon) => polygon.to_svg_string(),
            Geometry::MultiLineString(chains) => chains.to_svg_string(),
            Geometry::LineString(chain) => chain.to_svg_string(),
            Geometry::Line(line) => line.to_svg_string(),
        }
    }
}

impl ToSvg for MultiPolygon {
    open spec fn svg(&self) -> Seq<Piece> {
        multi_polygon_element(self@)
    }

    fn to_svg(&self) -> (out: Vec<Piece>) {
        multi_polygon_to_svg(self)
    }
}

impl ToSvgString for MultiPolygon {
    open spec fn svg_string(&self) -> Seq<Piece> {
        multi_polygon_path(self@)
    }

    fn to_svg_string(&self) -> (out: Vec<Piece>) {
        multi_polygon_to_svg_string(self)
    }
}

impl ToSvg for Polygon {
    open spec fn svg(&self) -> Seq<Piece> {
        polygon_element(self@)
    }

    fn to_svg(&self) -> (out: Vec<Piece>) {
        polygon_to_svg(self)
    }
}

impl ToSvgString for Polygon {
    open spec fn svg_string(&self) -> Seq<Piece> {
        polygon_path(self@)
    }

    fn to_svg_string(&self) -> (out: Vec<Piece>) {
        polygon_to_svg_string(self)
    }
}

impl ToSvg for Rect {
    open spec fn svg(&self) -> Seq<Piece> {
        rect_element(*self)
    }

    fn to_svg(&self) -> (out: Vec<Piece>) {
        rect_to_svg(self)
    }
}

impl ToSvgString for Rect {
    open spec fn svg_string(&self) -> Seq<Piece> {
        rect_path(*self)
    }

    fn to_svg_string(&self) -> (out: Vec<Piece>) {
        rect_to_svg_string(self)
    }
}

impl ToSvg for Triangle {
    open spec fn svg(&self) -> Seq<Piece> {
        triangle_element(*self)
    }

    fn to_svg(&self) -> (out: Vec<Piece>) {
        triangle_to_svg(self)
    }
}

impl ToSvgString for Triangle {
    open spec fn svg_string(&self) -> Seq<Piece> {
        triangle_path(*self)
    }

    fn to_svg_string(&self) -> (out: Vec<Piece>) {
        triangle_to_svg_string(self)
    }
}

impl ToSvg for MultiLineString {
    open spec fn svg(&self) -> Seq<Piece> {
        multi_linestring_element(self@)
    }

    fn to_svg(&self) -> (out: Vec<Piece>) {
        multi_linestring_to_svg(self)
    }
}

impl ToSvgString for MultiLineString {
    open spec fn svg_string(&self) -> Seq<Piece> {
        multi_linestring_path(self@)
    }

    fn to_svg_string(&self) -> (out: Vec<Piece>) {
        multi_linestring_to_svg_string(self)
    }
}

impl ToSvg for LineString {
    open spec fn svg(&self) -> Seq<Piece> {
        linestring_element(self@)
    }

    fn to_svg(&self) -> (out: Vec<Piece>) {
        linestring_to_svg(self)
    }
}

impl ToSvgString for LineString {
    open spec fn svg_string(&self) -> Seq<Piece> {
        linestring_path(self@)
    }

    fn to_svg_string(&self) -> (out: Vec<Piece>) {
        linestring_to_svg_string(self)
    }
}

impl ToSvg for Line {
    open spec fn svg(&self) -> Seq<Piece> {
        line_element(*self)
    }

    fn to_svg(&self) -> (out: Vec<Piece>) {
        single_line_to_svg(self)
    }
}

impl ToSvgString for Line {
    open spec fn svg_string(&self) -> Seq<Piece> {
        line_segment_path(*self)
    }

    fn to_svg_string(&self) -> (out: Vec<Piece>) {
        single_line_to_svg_string(self)
    }
}

/// Of nothing, nothing is written: not of an empty collection, of no
/// polygons or chains, of a chain without points, nor of a polygon without
/// outer ring, whatever holes it has.
pub proof fn nothing_is_written_of_nothing(holes: Seq<Seq<Coordinate>>)
    ensures
        collection_element(Seq::empty()) == nothing(),
        collection_path(Seq::empty()) == nothing(),
        multi_polygon_element(Seq::empty()) == nothing(),
        multi_polygon_path(Seq::empty()) == nothing(),
        multi_linestring_element(Seq::empty()) == nothing(),
        multi_linestring_path(Seq::empty()) == nothing(),
        linestring_element(Seq::empty()) == nothing(),
        linestring_path(Seq::empty()) == nothing(),
        polygon_element(PolygonView { exterior: Seq::empty(), interiors: holes }) == nothing(),
        polygon_path(PolygonView { exterior: Seq::empty(), interiors: holes }) == nothing(),
{
    let shapes = Seq::<GeometryView>::empty();
    assert(shapes.map_values(|shape: GeometryView| geometry_element(shape)) =~= Seq::empty());
    assert(shapes.map_values(|shape: GeometryView| geometry_path(shape)) =~= Seq::empty());
    let polygons = Seq::<PolygonView>::empty();
    assert(polygons.map_values(|polygon: PolygonView| polygon_element(polygon)) =~= Seq::empty());
    assert(polygons.map_values(|polygon: PolygonView| polygon_path(polygon)) =~= Seq::empty());
    let chains = Seq::<Seq<Coordinate>>::empty();
    assert(chains.map_values(|points: Seq<Coordinate>| linestring_element(points)) =~= Seq::empty());
    assert(chains.map_values(|points: Seq<Coordinate>| linestring_path(points)) =~= Seq::empty());
}

} // verus!
