//! What is written can be read again.
//!
//! Text is cut into commands by the caller. So each law here is stated of the
//! commands that the written path data spells: a move to the first point and
//! a line to each of the others.

use crate::arith::Op;
use crate::geo_svg_reader::classify::ring_exactly_when_closed;
use crate::geo_svg_reader::classify::two_points_make_a_segment;
use crate::geo_svg_reader::command::Command;
use crate::geo_svg_reader::command::Cursor;
use crate::geo_svg_reader::error::SvgError;
use crate::geo_svg_reader::path::path_collection;
use crate::geo_svg_reader::path::run;
use crate::geo_svg_reader::path::PathState;
use crate::geo_svg_writer::lines::coord_text;
use crate::geo_svg_writer::lines::line_path;
use crate::geo_svg_writer::lines::line_segment_path;
use crate::geo_svg_writer::lines::linestring_path;
use crate::geo_svg_writer::piece::join;
use crate::geo_svg_writer::piece::lemma_join_push;
use crate::geo_svg_writer::piece::lemma_text_of_both;
use crate::geo_svg_writer::piece::nothing;
use crate::geo_svg_writer::piece::text_of;
use crate::geo_svg_writer::piece::word;
use crate::geo_svg_writer::piece::Piece;
use crate::geo_svg_writer::polygons::polygon_element;
use crate::geo_svg_writer::polygons::polygon_path;
use crate::geo_svg_writer::polygons::polygon_rings;
use crate::geo_svg_writer::polygons::rings;
use crate::geo_svg_writer::shapes::collection_element;
use crate::geo_svg_writer::shapes::collection_path;
use crate::geo_svg_writer::shapes::geometry_element;
use crate::geo_svg_writer::shapes::geometry_path;
use crate::geometry::is_closed;
use crate::geometry::Coordinate;
use crate::geometry::GeometryView;
use crate::geometry::Line;
use crate::geometry::PolygonView;
use vstd::prelude::*;

verus! {

/// The command that draws the point at place `i` of a chain.
pub open spec fn line_command(points: Seq<Coordinate>, i: int) -> Command {
    if i == 0 {
        Command::MoveTo { abs: true, x: points[i].x, y: points[i].y }
    } else {
        Command::LineTo { abs: true, x: points[i].x, y: points[i].y }
    }
}

/// The commands that draw a chain with straight lines: a move to its first
/// point, and a line to each of the others.
pub open spec fn line_commands(points: Seq<Coordinate>) -> Seq<Command> {
    Seq::new(points.len(), |i: int| line_command(points, i))
}

/// A move or a line to a position as it stands in path data: its letter,
/// then the point.
pub open spec fn command_text(command: Command) -> Seq<Piece> {
    match command {
        Command::MoveTo { x, y, .. } => word("M") + coord_text(Coordinate { x, y }),
        Command::LineTo { x, y, .. } => word("L") + coord_text(Coordinate { x, y }),
        _ => nothing(),
    }
}

/// Commands as path data, one after the other.
pub open spec fn commands_text(commands: Seq<Command>) -> Seq<Piece> {
    join(commands.map_values(|command: Command| command_text(command)), nothing())
}

/// The commands of a chain draw the chain, as one subpath, whatever arithmetic
/// there is: none is asked for.
pub proof fn lemma_lines_are_drawn(k: spec_fn(Op) -> u64, parts: u32, points: Seq<Coordinate>)
    requires
        points.len() >= 1,
    ensures
        run(k, parts, line_commands(points)) == Some(
            PathState {
                subpaths: seq![points],
                cursor: Cursor { current: Some(points.last()), start: Some(points[0]), control: None },
            },
        ),
    decreases points.len(),
{
    let commands = line_commands(points);
    assert(commands.drop_last() =~= line_commands(points.drop_last()));
    if points.len() == 1 {
        assert(run(k, parts, commands.drop_last()) == Some(
            PathState { subpaths: Seq::empty(), cursor: Cursor::initial() },
        ));
        assert(seq![points[0]] =~= points);
        assert(Seq::<Seq<Coordinate>>::empty().push(seq![points[0]]) =~= seq![points]);
    } else {
        lemma_lines_are_drawn(k, parts, points.drop_last());
        let before = seq![points.drop_last()];
        assert(before[0] + seq![points.last()] =~= points);
        assert(before.update(0, before[0] + seq![points.last()]) =~= seq![points]);
    }
}

/// The path data of a chain is the text of its commands.
pub proof fn lemma_lines_are_spelled(points: Seq<Coordinate>)
    requires
        points.len() >= 1,
    ensures
        word("M") + line_path(points) == commands_text(line_commands(points)),
    decreases points.len(),
{
    let texts_of_points = points.map_values(|coord: Coordinate| coord_text(coord));
    let texts = line_commands(points).map_values(|command: Command| command_text(command));
    let fewer = points.drop_last();
    let fewer_points = fewer.map_values(|coord: Coordinate| coord_text(coord));
    let fewer_texts = line_commands(fewer).map_values(|command: Command| command_text(command));
    assert(texts_of_points =~= fewer_points.push(coord_text(points.last())));
    lemma_join_push(fewer_points, coord_text(points.last()), word("L"));
    if points.len() == 1 {
        assert(texts =~= seq![word("M") + coord_text(points[0])]);
        assert(word("M") + line_path(points) =~= commands_text(line_commands(points)));
    } else {
        lemma_lines_are_spelled(fewer);
        assert(texts =~= fewer_texts.push(word("L") + coord_text(points.last())));
        lemma_join_push(fewer_texts, word("L") + coord_text(points.last()), nothing());
        assert(word("M") + line_path(points) =~= commands_text(line_commands(points)));
    }
}

/// A polygon without holes that is written as path data and read again is
/// the same polygon, with the same points in the same order, and is written
/// the same again. This holds of any closed ring but one of two points, which
/// is read as a segment. Holes are not read back: of several rings the first
/// alone is kept.
pub proof fn polygon_round_trip(k: spec_fn(Op) -> u64, parts: u32, polygon: PolygonView)
    requires
        is_closed(polygon.exterior),
        polygon.exterior.len() != 0,
        polygon.exterior.len() != 2,
        polygon.interiors.len() == 0,
    ensures
        polygon_path(polygon) == commands_text(line_commands(polygon.exterior)),
        path_collection(k, parts, line_commands(polygon.exterior)) == Ok::<
            Seq<GeometryView>,
            SvgError,
        >(seq![GeometryView::Polygon(polygon)]),
        collection_path(seq![GeometryView::Polygon(polygon)]) == polygon_path(polygon),
        collection_element(seq![GeometryView::Polygon(polygon)]) == polygon_element(polygon),
{
    let ring = polygon.exterior;
    lemma_lines_are_drawn(k, parts, ring);
    lemma_lines_are_spelled(ring);
    ring_exactly_when_closed(ring);
    assert(polygon.interiors =~= Seq::empty());
    assert(rings(polygon) =~= seq![ring]);
    assert(rings(polygon).map_values(|ring: Seq<Coordinate>| line_path(ring)) =~= seq![
        line_path(ring),
    ]);
    let shapes = seq![GeometryView::Polygon(polygon)];
    assert(shapes.map_values(|shape: GeometryView| geometry_path(shape)) =~= seq![
        polygon_path(polygon),
    ]);
    assert(shapes.map_values(|shape: GeometryView| geometry_element(shape)) =~= seq![
        polygon_element(polygon),
    ]);
}

/// An open chain of more than two points that is written as path data and
/// read again is the same chain.
pub proof fn chain_round_trip(k: spec_fn(Op) -> u64, parts: u32, chain: Seq<Coordinate>)
    requires
        chain.len() > 2,
        chain.first() != chain.last(),
    ensures
        linestring_path(chain) == commands_text(line_commands(chain)),
        path_collection(k, parts, line_commands(chain)) == Ok::<Seq<GeometryView>, SvgError>(
            seq![GeometryView::LineString(chain)],
        ),
{
    lemma_lines_are_drawn(k, parts, chain);
    lemma_lines_are_spelled(chain);
    ring_exactly_when_closed(chain);
}

/// A segment that is written as path data and read again is the same
/// segment.
pub proof fn segment_round_trip(k: spec_fn(Op) -> u64, parts: u32, line: Line)
    ensures
        line_segment_path(line) == commands_text(line_commands(seq![line.start, line.end])),
        path_collection(k, parts, line_commands(seq![line.start, line.end])) == Ok::<
            Seq<GeometryView>,
            SvgError,
        >(seq![GeometryView::Line(line)]),
{
    let ends = seq![line.start, line.end];
    lemma_lines_are_drawn(k, parts, ends);
    lemma_lines_are_spelled(ends);
    two_points_make_a_segment(ends);
    let points = ends.map_values(|coord: Coordinate| coord_text(coord));
    assert(points =~= seq![coord_text(line.start)].push(coord_text(line.end)));
    lemma_join_push(seq![coord_text(line.start)], coord_text(line.end), word("L"));
    assert(line_segment_path(line) =~= word("M") + line_path(ends));
}

/// The text of one word is the word.
pub proof fn lemma_text_of_word(
    shown: spec_fn(u64) -> Seq<char>,
    k: spec_fn(Op) -> u64,
    text: &'static str,
)
    ensures
        text_of(shown, k, word(text)) == text@,
{
    reveal_with_fuel(text_of, 2);
    assert(word(text).drop_last() =~= Seq::<Piece>::empty());
    assert(text_of(shown, k, word(text)) =~= text@);
}

/// The element of a polygon holds the polygon's path data and nothing else:
/// its text is that of the path data between the opening of a `path` with
/// its `d` and the end of that tag.
pub proof fn element_holds_the_path_data(
    shown: spec_fn(u64) -> Seq<char>,
    k: spec_fn(Op) -> u64,
    polygon: PolygonView,
)
    requires
        polygon.exterior.len() > 0,
    ensures
        text_of(shown, k, polygon_element(polygon)) == "<path d=\""@ + text_of(
            shown,
            k,
            polygon_path(polygon),
        ) + "\"/>"@,
{
    let inner = polygon_rings(polygon);
    reveal_strlit("<path d=\"M");
    reveal_strlit("<path d=\"");
    reveal_strlit("M");
    assert("<path d=\"M"@ =~= "<path d=\""@ + "M"@);
    lemma_text_of_word(shown, k, "<path d=\"M");
    lemma_text_of_word(shown, k, "M");
    lemma_text_of_word(shown, k, "\"/>");
    lemma_text_of_both(shown, k, word("<path d=\"M"), inner);
    lemma_text_of_both(shown, k, word("<path d=\"M") + inner, word("\"/>"));
    lemma_text_of_both(shown, k, word("M"), inner);
    assert(text_of(shown, k, polygon_element(polygon)) =~= "<path d=\""@ + text_of(
        shown,
        k,
        polygon_path(polygon),
    ) + "\"/>"@);
}

} // verus!
