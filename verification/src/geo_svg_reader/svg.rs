//! From the text of an element, or of path data, to geometries.
//!
//! The library reads no number from a text. Its caller hands in what does:
//! one function that cuts path data into commands, one that cuts a list of
//! points, one that reads a single number, and the arithmetic. A contract
//! here says what is returned for all the functions that these compute.

use super::command::Command;
use super::element::attributes_view;
use super::element::first_source;
use super::element::markup;
use super::element::svg_to_source;
use super::element::Attribute;
use super::element::Source;
use super::element::SourceView;
use super::error::SvgError;
use super::error::SvgUnsupportedGeometryTypeError;
use super::flatten::SAMPLES;
use super::path::collection_view;
use super::path::commands_to_geometry_collection;
use super::path::geometry_view;
use super::path::only;
use super::path::path_collection;
use super::path::single_geometry;
use super::shape::measured_line;
use super::shape::measured_rect;
use super::shape::measures_to_line;
use super::shape::measures_to_rect;
use super::shape::measures_view;
use super::shape::points_chain;
use super::shape::points_polygon;
use super::shape::svg_polygon_to_geometry;
use super::shape::svg_polyline_to_geometry;
use super::shape::Measure;
use crate::arith::computes;
use crate::arith::total;
use crate::arith::Op;
use crate::geometry::Coordinate;
use crate::geometry::Geometry;
use crate::geometry::GeometryCollection;
use crate::geometry::GeometryView;
use std::num::ParseFloatError;
use vstd::prelude::*;

verus! {

/// What a result of commands holds.
pub open spec fn commands_view(found: Result<Vec<Command>, SvgError>) -> Result<
    Seq<Command>,
    SvgError,
> {
    match found {
        Ok(commands) => Ok(commands@),
        Err(error) => Err(error),
    }
}

/// `commands` cuts path data as `cut` does: whatever it hands back for a text
/// holds what `cut` gives for it.
pub open spec fn cuts_commands<C: Fn(&str) -> Result<Vec<Command>, SvgError>>(
    commands: C,
    cut: spec_fn(Seq<char>) -> Result<Seq<Command>, SvgError>,
) -> bool {
    forall|text: &str, found: Result<Vec<Command>, SvgError>| #[trigger]
        commands.ensures((text,), found) ==> commands_view(found) == cut(text@)
}

/// `points` cuts a list of points as `cut` does.
pub open spec fn cuts_points<P: Fn(&str) -> Vec<Coordinate>>(
    points: P,
    cut: spec_fn(Seq<char>) -> Seq<Coordinate>,
) -> bool {
    forall|text: &str, found: Vec<Coordinate>| #[trigger]
        points.ensures((text,), found) ==> found@ == cut(text@)
}

/// `number` reads a number as `read` does.
pub open spec fn reads_numbers<N: Fn(&str) -> Result<u64, ParseFloatError>>(
    number: N,
    read: spec_fn(Seq<char>) -> Result<u64, ParseFloatError>,
) -> bool {
    forall|text: &str, found: Result<u64, ParseFloatError>| #[trigger]
        number.ensures((text,), found) ==> found == read(text@)
}

/// The numbers of some attributes, each under its name and in their order.
/// The first text that is no number ends the reading with its error.
pub open spec fn measured(
    read: spec_fn(Seq<char>) -> Result<u64, ParseFloatError>,
    attributes: Seq<(Seq<char>, Seq<char>)>,
) -> Result<Seq<(Seq<char>, u64)>, SvgError>
    decreases attributes.len(),
{
    if attributes.len() == 0 {
        Ok(Seq::empty())
    } else {
        match measured(read, attributes.drop_last()) {
            Ok(measures) => match read(attributes.last().1) {
                Ok(value) => Ok(measures.push((attributes.last().0, value))),
                Err(error) => Err(SvgError::ParseError(error)),
            },
            Err(error) => Err(error),
        }
    }
}

/// The shape as a collection of one.
pub open spec fn alone<T>(found: Result<T, SvgError>, shape: spec_fn(T) -> GeometryView) -> Result<
    Seq<GeometryView>,
    SvgError,
> {
    match found {
        Ok(inner) => Ok(seq![shape(inner)]),
        Err(error) => Err(error),
    }
}

/// The shapes that the texts of an element describe. Path data gives what
/// it draws; each of the other elements gives one shape.
pub open spec fn source_collection(
    k: spec_fn(Op) -> u64,
    cut: spec_fn(Seq<char>) -> Result<Seq<Command>, SvgError>,
    cut_points: spec_fn(Seq<char>) -> Seq<Coordinate>,
    read: spec_fn(Seq<char>) -> Result<u64, ParseFloatError>,
    source: SourceView,
) -> Result<Seq<GeometryView>, SvgError> {
    match source {
        SourceView::Path(text) => d_path_collection(k, cut, text),
        SourceView::Polygon(text) => alone(
            points_polygon(cut_points(text)),
            |polygon| GeometryView::Polygon(polygon),
        ),
        SourceView::Polyline(text) => alone(
            points_chain(cut_points(text)),
            |chain| GeometryView::LineString(chain),
        ),
        SourceView::Rect(attributes) => match measured(read, attributes) {
            Ok(measures) => alone(
                measured_rect(k, measures),
                |polygon| GeometryView::Polygon(polygon),
            ),
            Err(error) => Err(error),
        },
        SourceView::Line(attributes) => match measured(read, attributes) {
            Ok(measures) => alone(measured_line(measures), |line| GeometryView::Line(line)),
            Err(error) => Err(error),
        },
    }
}

/// The shapes that path data draws, each curve as a hundred points.
pub open spec fn d_path_collection(
    k: spec_fn(Op) -> u64,
    cut: spec_fn(Seq<char>) -> Result<Seq<Command>, SvgError>,
    text: Seq<char>,
) -> Result<Seq<GeometryView>, SvgError> {
    match cut(text) {
        Ok(commands) => path_collection(k, SAMPLES, commands),
        Err(error) => Err(error),
    }
}

/// The shapes of the first element of some markup that has any.
pub open spec fn svg_collection(
    k: spec_fn(Op) -> u64,
    cut: spec_fn(Seq<char>) -> Result<Seq<Command>, SvgError>,
    cut_points: spec_fn(Seq<char>) -> Seq<Coordinate>,
    read: spec_fn(Seq<char>) -> Result<u64, ParseFloatError>,
    text: Seq<char>,
) -> Result<Seq<GeometryView>, SvgError> {
    match first_source(markup(text)) {
        Some(source) => source_collection(k, cut, cut_points, read, source),
        None => Err(SvgError::SvgInvalidType(SvgUnsupportedGeometryTypeError)),
    }
}

/// The one shape of a result of shapes.
pub open spec fn only_of(found: Result<Seq<GeometryView>, SvgError>) -> Result<
    GeometryView,
    SvgError,
> {
    match found {
        Ok(shapes) => only(shapes),
        Err(error) => Err(error),
    }
}

/// What a result of measures holds.
pub open spec fn measured_view(found: Result<Vec<Measure>, SvgError>) -> Result<
    Seq<(Seq<char>, u64)>,
    SvgError,
> {
    match found {
        Ok(measures) => Ok(measures_view(measures@)),
        Err(error) => Err(error),
    }
}

/// The numbers of some attributes, in their order.
pub fn attributes_to_measures<N: Fn(&str) -> Result<u64, ParseFloatError>>(
    attributes: &Vec<Attribute>,
    number: &N,
) -> (found: Result<Vec<Measure>, SvgError>)
    requires
        forall|text: &str| #[trigger] number.requires((text,)),
    ensures
        forall|read: spec_fn(Seq<char>) -> Result<u64, ParseFloatError>| #[trigger]
            reads_numbers(*number, read) ==> measured_view(found) == measured(
                read,
                attributes_view(attributes@),
            ),
{
    let ghost all = attributes_view(attributes@);
    let mut measures: Vec<Measure> = Vec::new();
    let mut i: usize = 0;
    proof {
        assert(all.take(0) =~= Seq::empty());
        assert(measures_view(measures@) =~= Seq::empty());
    }
    while i < attributes.len()
        invariant
            i <= attributes.len(),
            all == attributes_view(attributes@),
            forall|text: &str| #[trigger] number.requires((text,)),
            forall|read: spec_fn(Seq<char>) -> Result<u64, ParseFloatError>| #[trigger]
                reads_numbers(*number, read) ==> measured(read, all.take(i as int)) == Ok::<
                    Seq<(Seq<char>, u64)>,
                    SvgError,
                >(measures_view(measures@)),
        decreases attributes.len() - i,
    {
        let ghost before = measures_view(measures@);
        proof {
            assert(all.take(i + 1).drop_last() =~= all.take(i as int));
        }
        match number(attributes[i].value.as_str()) {
            Ok(value) => {
                measures.push(Measure { name: attributes[i].name.clone(), value });
                proof {
                    assert(measures_view(measures@) =~= before.push(
                        (attributes@[i as int].name@, value),
                    ));
                }
            },
            Err(error) => {
                proof {
                    assert forall|read: spec_fn(Seq<char>) -> Result<u64, ParseFloatError>| #[trigger]
                        reads_numbers(*number, read) implies measured(read, all) == Err::<
                        Seq<(Seq<char>, u64)>,
                        SvgError,
                    >(SvgError::ParseError(error)) by {
                        lemma_fault_stays(read, all, i + 1);
                    }
                }
                return Err(SvgError::ParseError(error));
            },
        }
        i += 1;
    }
    proof {
        assert(all.take(attributes.len() as int) =~= all);
    }
    Ok(measures)
}

/// Once a text is no number, the texts after it are not read.
proof fn lemma_fault_stays(
    read: spec_fn(Seq<char>) -> Result<u64, ParseFloatError>,
    attributes: Seq<(Seq<char>, Seq<char>)>,
    i: int,
)
    requires
        0 <= i <= attributes.len(),
        measured(read, attributes.take(i)) is Err,
    ensures
        measured(read, attributes) == measured(read, attributes.take(i)),
    decreases attributes.len() - i,
{
    if i < attributes.len() {
        assert(attributes.take(i + 1).drop_last() =~= attributes.take(i));
        lemma_fault_stays(read, attributes, i + 1);
    } else {
        assert(attributes.take(i) =~= attributes);
    }
}

/// The shapes that the path data of a `d` attribute draws.
pub fn svg_d_path_to_geometry_collection<C, A>(svg: &str, commands: &C, arith: &A) -> (found: Result<
    GeometryCollection,
    SvgError,
>) where C: Fn(&str) -> Result<Vec<Command>, SvgError>, A: Fn(Op) -> u64
    requires
        forall|text: &str| #[trigger] commands.requires((text,)),
        total(*arith),
    ensures
        forall|k: spec_fn(Op) -> u64, cut: spec_fn(Seq<char>) -> Result<Seq<Command>, SvgError>|
            #![trigger computes(*arith, k), cuts_commands(*commands, cut)]
            computes(*arith, k) && cuts_commands(*commands, cut) ==> collection_view(found)
                == d_path_collection(k, cut, svg@),
{
    match commands(svg) {
        Ok(found) => commands_to_geometry_collection(&found, arith),
        Err(error) => Err(error),
    }
}

/// The one shape that the path data of a `d` attribute draws.
pub fn svg_d_path_to_geometry<C, A>(svg: &str, commands: &C, arith: &A) -> (found: Result<
    Geometry,
    SvgError,
>) where C: Fn(&str) -> Result<Vec<Command>, SvgError>, A: Fn(Op) -> u64
    requires
        forall|text: &str| #[trigger] commands.requires((text,)),
        total(*arith),
    ensures
        forall|k: spec_fn(Op) -> u64, cut: spec_fn(Seq<char>) -> Result<Seq<Command>, SvgError>|
            #![trigger computes(*arith, k), cuts_commands(*commands, cut)]
            computes(*arith, k) && cuts_commands(*commands, cut) ==> geometry_view(found)
                == only_of(d_path_collection(k, cut, svg@)),
{
    match svg_d_path_to_geometry_collection(svg, commands, arith) {
        Ok(shapes) => single_geometry(&shapes),
        Err(error) => Err(error),
    }
}

/// The shapes that the texts of an element describe.
pub fn source_to_geometry_collection<C, P, N, A>(
    source: &Source,
    commands: &C,
    points: &P,
    number: &N,
    arith: &A,
) -> (found: Result<GeometryCollection, SvgError>) where
    C: Fn(&str) -> Result<Vec<Command>, SvgError>,
    P: Fn(&str) -> Vec<Coordinate>,
    N: Fn(&str) -> Result<u64, ParseFloatError>,
    A: Fn(Op) -> u64,

    requires
        forall|text: &str| #[trigger] commands.requires((text,)),
        forall|text: &str| #[trigger] points.requires((text,)),
        forall|text: &str| #[trigger] number.requires((text,)),
        total(*arith),
    ensures
        forall|
            k: spec_fn(Op) -> u64,
            cut: spec_fn(Seq<char>) -> Result<Seq<Command>, SvgError>,
            cut_points: spec_fn(Seq<char>) -> Seq<Coordinate>,
            read: spec_fn(Seq<char>) -> Result<u64, ParseFloatError>,
        |
            #![trigger
                computes(*arith, k),
                cuts_commands(*commands, cut),
                cuts_points(*points, cut_points),
                reads_numbers(*number, read),
            ]
            computes(*arith, k) && cuts_commands(*commands, cut) && cuts_points(
                *points,
                cut_points,
            ) && reads_numbers(*number, read) ==> collection_view(found) == source_collection(
                k,
                cut,
                cut_points,
                read,
                source@,
            ),
{
    let shape = match source {
        Source::Path(text) => {
            return svg_d_path_to_geometry_collection(text.as_str(), commands, arith);
        },
        Source::Polygon(text) => match svg_polygon_to_geometry(points(text.as_str())) {
            Ok(polygon) => Geometry::Polygon(polygon),
            Err(error) => {
                return Err(error);
            },
        },
        Source::Polyline(text) => match svg_polyline_to_geometry(points(text.as_str())) {
            Ok(chain) => Geometry::LineString(chain),
            Err(error) => {
                return Err(error);
            },
        },
        Source::Rect(attributes) => match attributes_to_measures(attributes, number) {
            Ok(measures) => match measures_to_rect(&measures, arith) {
                Ok(polygon) => Geometry::Polygon(polygon),
                Err(error) => {
                    return Err(error);
                },
            },
            Err(error) => {
                return Err(error);
            },
        },
        Source::Line(attributes) => match attributes_to_measures(attributes, number) {
            Ok(measures) => match measures_to_line(&measures) {
                Ok(line) => Geometry::Line(line),
                Err(error) => {
                    return Err(error);
                },
            },
            Err(error) => {
                return Err(error);
            },
        },
    };
    let mut shapes: Vec<Geometry> = Vec::new();
    shapes.push(shape);
    let found = GeometryCollection(shapes);
    proof {
        assert(found@ =~= seq![shape@]);
    }
    Ok(found)
}

/// The shapes of the first `path`, `polygon`, `polyline`, `rect` or `line`
/// element of some markup that has what it takes.
pub fn svg_to_geometry_collection<C, P, N, A>(
    svg: &str,
    commands: &C,
    points: &P,
    number: &N,
    arith: &A,
) -> (found: Result<GeometryCollection, SvgError>) where
    C: Fn(&str) -> Result<Vec<Command>, SvgError>,
    P: Fn(&str) -> Vec<Coordinate>,
    N: Fn(&str) -> Result<u64, ParseFloatError>,
    A: Fn(Op) -> u64,

    requires
        forall|text: &str| #[trigger] commands.requires((text,)),
        forall|text: &str| #[trigger] points.requires((text,)),
        forall|text: &str| #[trigger] number.requires((text,)),
        total(*arith),
    ensures
        first_source(markup(svg@)) is None ==> found == Err::<GeometryCollection, SvgError>(
            SvgError::SvgInvalidType(SvgUnsupportedGeometryTypeError),
        ),
        forall|
            k: spec_fn(Op) -> u64,
            cut: spec_fn(Seq<char>) -> Result<Seq<Command>, SvgError>,
            cut_points: spec_fn(Seq<char>) -> Seq<Coordinate>,
            read: spec_fn(Seq<char>) -> Result<u64, ParseFloatError>,
        |
            #![trigger
                computes(*arith, k),
                cuts_commands(*commands, cut),
                cuts_points(*points, cut_points),
                reads_numbers(*number, read),
            ]
            computes(*arith, k) && cuts_commands(*commands, cut) && cuts_points(
                *points,
                cut_points,
            ) && reads_numbers(*number, read) ==> collection_view(found) == svg_collection(
                k,
                cut,
                cut_points,
                read,
                svg@,
            ),
{
    match svg_to_source(svg) {
        Ok(source) => source_to_geometry_collection(&source, commands, points, number, arith),
        Err(error) => Err(error),
    }
}

/// The one shape of the first supported element of some markup.
pub fn svg_to_geometry<C, P, N, A>(
    svg: &str,
    commands: &C,
    points: &P,
    number: &N,
    arith: &A,
) -> (found: Result<Geometry, SvgError>) where
    C: Fn(&str) -> Result<Vec<Command>, SvgError>,
    P: Fn(&str) -> Vec<Coordinate>,
    N: Fn(&str) -> Result<u64, ParseFloatError>,
    A: Fn(Op) -> u64,

    requires
        forall|text: &str| #[trigger] commands.requires((text,)),
        forall|text: &str| #[trigger] points.requires((text,)),
        forall|text: &str| #[trigger] number.requires((text,)),
        total(*arith),
    ensures
        first_source(markup(svg@)) is None ==> found == Err::<Geometry, SvgError>(
            SvgError::SvgInvalidType(SvgUnsupportedGeometryTypeError),
        ),
        forall|
            k: spec_fn(Op) -> u64,
            cut: spec_fn(Seq<char>) -> Result<Seq<Command>, SvgError>,
            cut_points: spec_fn(Seq<char>) -> Seq<Coordinate>,
            read: spec_fn(Seq<char>) -> Result<u64, ParseFloatError>,
        |
            #![trigger
                computes(*arith, k),
                cuts_commands(*commands, cut),
                cuts_points(*points, cut_points),
                reads_numbers(*number, read),
            ]
            computes(*arith, k) && cuts_commands(*commands, cut) && cuts_points(
                *points,
                cut_points,
            ) && reads_numbers(*number, read) ==> geometry_view(found) == only_of(
                svg_collection(k, cut, cut_points, read, svg@),
            ),
{
    match svg_to_geometry_collection(svg, commands, points, number, arith) {
        Ok(shapes) => single_geometry(&shapes),
        Err(error) => Err(error),
    }
}

} // verus!
