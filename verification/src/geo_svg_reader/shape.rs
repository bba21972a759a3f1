//! The simple shapes: polygons and chains from lists of points, rectangles
//! and segments from their numbers.

use super::element::is_word;
use super::error::InvalidSvgError;
use super::error::SvgError;
use super::path::invalid;
use crate::arith::at_most;
use crate::arith::computes;
use crate::arith::not_above;
use crate::arith::total;
use crate::arith::Op;
use crate::geometry::closed;
use crate::geometry::Coordinate;
use crate::geometry::Line;
use crate::geometry::LineString;
use crate::geometry::Polygon;
use crate::geometry::PolygonView;
use vstd::prelude::*;

verus! {

/// A number that an element gives under a name.
#[derive(Clone, Debug, PartialEq, Eq)]
pub struct Measure {
    pub name: String,
    pub value: u64,
}

impl View for Measure {
    type V = (Seq<char>, u64);

    open spec fn view(&self) -> (Seq<char>, u64) {
        (self.name@, self.value)
    }
}

/// What each measure holds.
pub open spec fn measures_view(measures: Seq<Measure>) -> Seq<(Seq<char>, u64)> {
    measures.map_values(|measure: Measure| measure@)
}

/// The number given last under this name.
pub open spec fn measure_of(measures: Seq<(Seq<char>, u64)>, name: Seq<char>) -> Option<u64>
    decreases measures.len(),
{
    if measures.len() == 0 {
        None
    } else if measures.last().0 == name {
        Some(measures.last().1)
    } else {
        measure_of(measures.drop_last(), name)
    }
}

/// The boundary of the upright rectangle between two corners, from the first
/// corner along the side of least `y` round to the first corner again.
pub open spec fn rect_ring(min: Coordinate, max: Coordinate) -> Seq<Coordinate> {
    seq![
        min,
        Coordinate { x: max.x, y: min.y },
        max,
        Coordinate { x: min.x, y: max.y },
        min,
    ]
}

/// The polygon without holes that a list of points bounds, closed where the
/// list is not; an empty list is no polygon.
pub open spec fn points_polygon(points: Seq<Coordinate>) -> Result<PolygonView, SvgError> {
    if points.len() == 0 {
        Err(invalid())
    } else {
        Ok(PolygonView { exterior: closed(points), interiors: Seq::empty() })
    }
}

/// The chain through a list of points; an empty list is no chain.
pub open spec fn points_chain(points: Seq<Coordinate>) -> Result<Seq<Coordinate>, SvgError> {
    if points.len() == 0 {
        Err(invalid())
    } else {
        Ok(points)
    }
}

/// The rectangle from a corner and a size. Its far corner is the near one
/// plus the size, and must not lie before the near one on either axis.
pub open spec fn rect_polygon(k: spec_fn(Op) -> u64, x: u64, y: u64, width: u64, height: u64) -> Result<
    PolygonView,
    SvgError,
> {
    let max_x = k(Op::Sum(x, width));
    let max_y = k(Op::Sum(y, height));
    if at_most(x, max_x) && at_most(y, max_y) {
        Ok(
            PolygonView {
                exterior: rect_ring(Coordinate { x, y }, Coordinate { x: max_x, y: max_y }),
                interiors: Seq::empty(),
            },
        )
    } else {
        Err(invalid())
    }
}

/// The rectangle of an element's numbers: all four of `x`, `y`, `width` and
/// `height` are needed.
pub open spec fn measured_rect(k: spec_fn(Op) -> u64, measures: Seq<(Seq<char>, u64)>) -> Result<
    PolygonView,
    SvgError,
> {
    let x = measure_of(measures, "x"@);
    let y = measure_of(measures, "y"@);
    let width = measure_of(measures, "width"@);
    let height = measure_of(measures, "height"@);
    if x is Some && y is Some && width is Some && height is Some {
        rect_polygon(k, x->Some_0, y->Some_0, width->Some_0, height->Some_0)
    } else {
        Err(invalid())
    }
}

/// The segment of an element's numbers: all four of `x1`, `y1`, `x2` and `y2`
/// are needed.
pub open spec fn measured_line(measures: Seq<(Seq<char>, u64)>) -> Result<Line, SvgError> {
    let x1 = measure_of(measures, "x1"@);
    let y1 = measure_of(measures, "y1"@);
    let x2 = measure_of(measures, "x2"@);
    let y2 = measure_of(measures, "y2"@);
    if x1 is Some && y1 is Some && x2 is Some && y2 is Some {
        Ok(
            Line {
                start: Coordinate { x: x1->Some_0, y: y1->Some_0 },
                end: Coordinate { x: x2->Some_0, y: y2->Some_0 },
            },
        )
    } else {
        Err(invalid())
    }
}

/// What a result with a polygon holds.
pub open spec fn polygon_view(found: Result<Polygon, SvgError>) -> Result<PolygonView, SvgError> {
    match found {
        Ok(polygon) => Ok(polygon@),
        Err(error) => Err(error),
    }
}

/// What a result with a chain holds.
pub open spec fn chain_view(found: Result<LineString, SvgError>) -> Result<
    Seq<Coordinate>,
    SvgError,
> {
    match found {
        Ok(chain) => Ok(chain@),
        Err(error) => Err(error),
    }
}

/// The polygon that the points of a `polygon` element bound.
pub fn svg_polygon_to_geometry(points: Vec<Coordinate>) -> (found: Result<Polygon, SvgError>)
    ensures
        polygon_view(found) == points_polygon(points@),
{
    if points.len() == 0 {
        return Err(SvgError::InvalidSvgError(InvalidSvgError));
    }
    let polygon = Polygon::new(LineString(points), Vec::new());
    proof {
        assert(polygon@.interiors =~= Seq::empty());
    }
    Ok(polygon)
}

/// The chain through the points of a `polyline` element.
pub fn svg_polyline_to_geometry(points: Vec<Coordinate>) -> (found: Result<LineString, SvgError>)
    ensures
        chain_view(found) == points_chain(points@),
{
    if points.len() == 0 {
        return Err(SvgError::InvalidSvgError(InvalidSvgError));
    }
    Ok(LineString(points))
}

/// The rectangle with its near corner at `x` and `y` and of this size.
/// Whatever `arith` answers, the result is a rectangle or the input is
/// invalid.
pub fn svg_rect_to_geometry<A: Fn(Op) -> u64>(x: u64, y: u64, width: u64, height: u64, arith: &A) -> (found:
    Result<Polygon, SvgError>)
    requires
        total(*arith),
    ensures
        found is Err ==> found->Err_0 == invalid(),
        forall|k: spec_fn(Op) -> u64| #[trigger]
            computes(*arith, k) ==> polygon_view(found) == rect_polygon(k, x, y, width, height),
{
    let max_x = arith(Op::Sum(x, width));
    let max_y = arith(Op::Sum(y, height));
    if !not_above(x, max_x) || !not_above(y, max_y) {
        return Err(SvgError::InvalidSvgError(InvalidSvgError));
    }
    let mut ring: Vec<Coordinate> = Vec::new();
    ring.push(Coordinate { x, y });
    ring.push(Coordinate { x: max_x, y });
    ring.push(Coordinate { x: max_x, y: max_y });
    ring.push(Coordinate { x, y: max_y });
    ring.push(Coordinate { x, y });
    let polygon = Polygon::new(LineString(ring), Vec::new());
    proof {
        assert(polygon@.interiors =~= Seq::empty());
        assert(ring@ =~= rect_ring(Coordinate { x, y }, Coordinate { x: max_x, y: max_y }));
    }
    Ok(polygon)
}

/// The segment between two points given by their numbers.
pub fn svg_line_to_geometry(start_x: u64, start_y: u64, end_x: u64, end_y: u64) -> (line: Line)
    ensures
        line == (Line {
            start: Coordinate { x: start_x, y: start_y },
            end: Coordinate { x: end_x, y: end_y },
        }),
{
    Line::new(Coordinate { x: start_x, y: start_y }, Coordinate { x: end_x, y: end_y })
}

/// The number given last under a name.
pub fn find_measure(measures: &Vec<Measure>, name: &str) -> (found: Option<u64>)
    ensures
        found == measure_of(measures_view(measures@), name@),
{
    let ghost all = measures_view(measures@);
    let mut found: Option<u64> = None;
    let mut i: usize = 0;
    while i < measures.len()
        invariant
            i <= measures.len(),
            all == measures_view(measures@),
            found == measure_of(all.take(i as int), name@),
        decreases measures.len() - i,
    {
        proof {
            assert(all.take(i + 1).drop_last() =~= all.take(i as int));
        }
        if is_word(&measures[i].name, name) {
            found = Some(measures[i].value);
        }
        i += 1;
    }
    proof {
        assert(all.take(measures.len() as int) =~= all);
    }
    found
}

/// The rectangle of a `rect` element, from its numbers.
pub fn measures_to_rect<A: Fn(Op) -> u64>(measures: &Vec<Measure>, arith: &A) -> (found: Result<
    Polygon,
    SvgError,
>)
    requires
        total(*arith),
    ensures
        found is Err ==> found->Err_0 == invalid(),
        forall|k: spec_fn(Op) -> u64| #[trigger]
            computes(*arith, k) ==> polygon_view(found) == measured_rect(k, measures_view(measures@)),
{
    let x = find_measure(measures, "x");
    let y = find_measure(measures, "y");
    let width = find_measure(measures, "width");
    let height = find_measure(measures, "height");
    match (x, y, width, height) {
        (Some(x), Some(y), Some(width), Some(height)) => svg_rect_to_geometry(
            x,
            y,
            width,
            height,
            arith,
        ),
        _ => Err(SvgError::InvalidSvgError(InvalidSvgError)),
    }
}

/// The segment of a `line` element, from its numbers.
pub fn measures_to_line(measures: &Vec<Measure>) -> (found: Result<Line, SvgError>)
    ensures
        found == measured_line(measures_view(measures@)),
{
    let x1 = find_measure(measures, "x1");
    let y1 = find_measure(measures, "y1");
    let x2 = find_measure(measures, "x2");
    let y2 = find_measure(measures, "y2");
    match (x1, y1, x2, y2) {
        (Some(x1), Some(y1), Some(x2), Some(y2)) => Ok(svg_line_to_geometry(x1, y1, x2, y2)),
        _ => Err(SvgError::InvalidSvgError(InvalidSvgError)),
    }
}

} // verus!
