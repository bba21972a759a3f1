//! Polygons, rectangles and triangles as text.

use super::lines::coord_text;
use super::lines::coord_to_svg;
use super::lines::coord_to_svg_point;
use super::lines::line_path;
use super::lines::line_to_svg_string;
use super::lines::one;
use super::lines::point_text;
use super::lines::wrap;
use super::piece::append;
use super::piece::join;
use super::piece::join_runs;
use super::piece::nothing;
use super::piece::runs_view;
use super::piece::word;
use super::piece::Piece;
use crate::arith::Op;
use crate::geometry::Coordinate;
use crate::geometry::LineString;
use crate::geometry::MultiPolygon;
use crate::geometry::Polygon;
use crate::geometry::PolygonView;
use crate::geometry::Rect;
use crate::geometry::Triangle;
use vstd::prelude::*;

verus! {

/// The rings of a polygon, the outer one first.
pub open spec fn rings(polygon: PolygonView) -> Seq<Seq<Coordinate>> {
    seq![polygon.exterior] + polygon.interiors
}

/// The rings of a polygon as path data, with `M` between each two. The path
/// is not closed by a command: each ring ends on its first point.
pub open spec fn polygon_rings(polygon: PolygonView) -> Seq<Piece> {
    join(rings(polygon).map_values(|ring: Seq<Coordinate>| line_path(ring)), word("M"))
}

/// A polygon as a `path` element; one without outer ring as nothing.
pub open spec fn polygon_element(polygon: PolygonView) -> Seq<Piece> {
    if polygon.exterior.len() == 0 {
        nothing()
    } else {
        word("<path d=\"M") + polygon_rings(polygon) + word("\"/>")
    }
}

/// A polygon as path data that begins with `M`; one without outer ring as
/// nothing.
pub open spec fn polygon_path(polygon: PolygonView) -> Seq<Piece> {
    if polygon.exterior.len() == 0 {
        nothing()
    } else {
        word("M") + polygon_rings(polygon)
    }
}

/// Polygons as `path` elements, one on each line.
pub open spec fn multi_polygon_element(polygons: Seq<PolygonView>) -> Seq<Piece> {
    join(polygons.map_values(|polygon: PolygonView| polygon_element(polygon)), word("\n"))
}

/// Polygons as path data, one after the other.
pub open spec fn multi_polygon_path(polygons: Seq<PolygonView>) -> Seq<Piece> {
    join(polygons.map_values(|polygon: PolygonView| polygon_path(polygon)), nothing())
}

/// A rectangle as a `rect` element.
pub open spec fn rect_element(rect: Rect) -> Seq<Piece> {
    seq![
        Piece::Text("<rect x=\""),
        Piece::Number(rect.min.x),
        Piece::Text("\" y=\""),
        Piece::Number(rect.min.y),
        Piece::Text("\" width=\""),
        Piece::Number(rect.width),
        Piece::Text("\" height=\""),
        Piece::Number(rect.height),
        Piece::Text("\"/>"),
    ]
}

/// A rectangle as a closed path: from its near corner up by its height,
/// along by its width, and down again.
pub open spec fn rect_path(rect: Rect) -> Seq<Piece> {
    let far_x = Piece::Computed(Op::Sum(rect.min.x, rect.width));
    let far_y = Piece::Computed(Op::Sum(rect.min.y, rect.height));
    seq![
        Piece::Text("M"),
        Piece::Number(rect.min.x),
        Piece::Text(" "),
        Piece::Number(rect.min.y),
        Piece::Text("L"),
        Piece::Number(rect.min.x),
        Piece::Text(" "),
        far_y,
        Piece::Text("L"),
        far_x,
        Piece::Text(" "),
        far_y,
        Piece::Text("L"),
        far_x,
        Piece::Text(" "),
        Piece::Number(rect.min.y),
        Piece::Text("Z"),
    ]
}

/// A triangle as a `polygon` element.
pub open spec fn triangle_element(triangle: Triangle) -> Seq<Piece> {
    word("<polygon points=\"") + point_text(triangle.0) + word(" ") + point_text(triangle.1) + word(
        " ",
    ) + point_text(triangle.2) + word("\"/>")
}

/// A triangle as a closed path.
pub open spec fn triangle_path(triangle: Triangle) -> Seq<Piece> {
    word("M") + coord_text(triangle.0) + word("L") + coord_text(triangle.1) + word("L")
        + coord_text(triangle.2) + word("Z")
}

/// One ring as path data, with `L` between each two of its points.
pub fn poly_ring_to_svg(line: &LineString) -> (out: Vec<Piece>)
    ensures
        out@ == line_path(line@),
{
    line_to_svg_string(line)
}

/// The rings of a polygon as path data.
pub fn polygon_rings_to_svg(poly: &Polygon) -> (out: Vec<Piece>)
    ensures
        out@ == polygon_rings(poly@),
{
    let exterior: &LineString = poly.exterior();
    let interiors: &Vec<LineString> = poly.interiors();
    let mut runs: Vec<Vec<Piece>> = Vec::new();
    runs.push(poly_ring_to_svg(exterior));
    let mut i: usize = 0;
    while i < interiors.len()
        invariant
            i <= interiors.len(),
            runs@.len() == i + 1,
            runs@[0]@ == line_path(exterior@),
            forall|j: int| 0 <= j < i ==> (#[trigger] runs@[j + 1])@ == line_path(interiors@[j]@),
        decreases interiors.len() - i,
    {
        runs.push(poly_ring_to_svg(&interiors[i]));
        i += 1;
    }
    proof {
        let wanted = rings(poly@).map_values(|ring: Seq<Coordinate>| line_path(ring));
        assert(runs_view(runs@).len() == wanted.len());
        assert forall|j: int| 0 <= j < wanted.len() implies runs_view(runs@)[j] == wanted[j] by {
            if j > 0 {
                assert(runs@[(j - 1) + 1]@ == line_path(interiors@[j - 1]@));
                assert(poly@.interiors[j - 1] == interiors@[j - 1]@);
            }
        }
        assert(runs_view(runs@) =~= wanted);
    }
    join_runs(&runs, &one("M"))
}

/// A polygon as a `path` element.
pub fn polygon_to_svg(poly: &Polygon) -> (out: Vec<Piece>)
    ensures
        out@ == polygon_element(poly@),
{
    if poly.exterior().0.len() == 0 {
        Vec::new()
    } else {
        wrap("<path d=\"M", &polygon_rings_to_svg(poly), "\"/>")
    }
}

/// A polygon as path data that begins with `M`.
pub fn polygon_to_svg_string(poly: &Polygon) -> (out: Vec<Piece>)
    ensures
        out@ == polygon_path(poly@),
{
    if poly.exterior().0.len() == 0 {
        Vec::new()
    } else {
        let mut out = one("M");
        append(&mut out, &polygon_rings_to_svg(poly));
        out
    }
}

/// Polygons as `path` elements, one on each line.
pub fn multi_polygon_to_svg(poly: &MultiPolygon) -> (out: Vec<Piece>)
    ensures
        out@ == multi_polygon_element(poly@),
{
    let mut runs: Vec<Vec<Piece>> = Vec::new();
    let mut i: usize = 0;
    while i < poly.0.len()
        invariant
            i <= poly.0.len(),
            runs@.len() == i,
            forall|j: int| 0 <= j < i ==> (#[trigger] runs@[j])@ == polygon_element(poly.0@[j]@),
        decreases poly.0.len() - i,
    {
        runs.push(polygon_to_svg(&poly.0[i]));
        i += 1;
    }
    proof {
        assert(runs_view(runs@) =~= poly@.map_values(
            |polygon: PolygonView| polygon_element(polygon),
        ));
    }
    join_runs(&runs, &one("\n"))
}

/// Polygons as path data, one after the other.
pub fn multi_polygon_to_svg_string(poly: &MultiPolygon) -> (out: Vec<Piece>)
    ensures
        out@ == multi_polygon_path(poly@),
{
    let mut runs: Vec<Vec<Piece>> = Vec::new();
    let mut i: usize = 0;
    while i < poly.0.len()
        invariant
            i <= poly.0.len(),
            runs@.len() == i,
            forall|j: int| 0 <= j < i ==> (#[trigger] runs@[j])@ == polygon_path(poly.0@[j]@),
        decreases poly.0.len() - i,
    {
        runs.push(polygon_to_svg_string(&poly.0[i]));
        i += 1;
    }
    proof {
        assert(runs_view(runs@) =~= poly@.map_values(|polygon: PolygonView| polygon_path(polygon)));
    }
    join_runs(&runs, &Vec::new())
}

/// A rectangle as a `rect` element.
pub fn rect_to_svg(rect: &Rect) -> (out: Vec<Piece>)
    ensures
        out@ == rect_element(*rect),
{
    let mut out: Vec<Piece> = Vec::new();
    out.push(Piece::Text("<rect x=\""));
    out.push(Piece::Number(rect.min.x));
    out.push(Piece::Text("\" y=\""));
    out.push(Piece::Number(rect.min.y));
    out.push(Piece::Text("\" width=\""));
    out.push(Piece::Number(rect.width));
    out.push(Piece::Text("\" height=\""));
    out.push(Piece::Number(rect.height));
    out.push(Piece::Text("\"/>"));
    proof {
        assert(out@ =~= rect_element(*rect));
    }
    out
}

/// A rectangle as a closed path.
pub fn rect_to_svg_string(rect: &Rect) -> (out: Vec<Piece>)
    ensures
        out@ == rect_path(*rect),
{
    let far_x = Piece::Computed(Op::Sum(rect.min.x, rect.width));
    let far_y = Piece::Computed(Op::Sum(rect.min.y, rect.height));
    let mut out: Vec<Piece> = Vec::new();
    out.push(Piece::Text("M"));
    out.push(Piece::Number(rect.min.x));
    out.push(Piece::Text(" "));
    out.push(Piece::Number(rect.min.y));
    out.push(Piece::Text("L"));
    out.push(Piece::Number(rect.min.x));
    out.push(Piece::Text(" "));
    out.push(far_y);
    out.push(Piece::Text("L"));
    out.push(far_x);
    out.push(Piece::Text(" "));
    out.push(far_y);
    out.push(Piece::Text("L"));
    out.push(far_x);
    out.push(Piece::Text(" "));
    out.push(Piece::Number(rect.min.y));
    out.push(Piece::Text("Z"));
    proof {
        assert(out@ =~= rect_path(*rect));
    }
    out
}

/// A triangle as a `polygon` element.
pub fn triangle_to_svg(triangle: &Triangle) -> (out: Vec<Piece>)
    ensures
        out@ == triangle_element(*triangle),
{
    let mut out = one("<polygon points=\"");
    append(&mut out, &coord_to_svg_point(&triangle.0));
    out.push(Piece::Text(" "));
    append(&mut out, &coord_to_svg_point(&triangle.1));
    out.push(Piece::Text(" "));
    append(&mut out, &coord_to_svg_point(&triangle.2));
    out.push(Piece::Text("\"/>"));
    proof {
        assert(out@ =~= triangle_element(*triangle));
    }
    out
}

/// A triangle as a closed path.
pub fn triangle_to_svg_string(triangle: &Triangle) -> (out: Vec<Piece>)
    ensures
        out@ == triangle_path(*triangle),
{
    let mut out = one("M");
    append(&mut out, &coord_to_svg(&triangle.0));
    out.push(Piece::Text("L"));
    append(&mut out, &coord_to_svg(&triangle.1));
    out.push(Piece::Text("L"));
    append(&mut out, &coord_to_svg(&triangle.2));
    out.push(Piece::Text("Z"));
    proof {
        assert(out@ =~= triangle_path(*triangle));
    }
    out
}

} // verus!
