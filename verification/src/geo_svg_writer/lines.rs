//! Points, chains and segments as text.

use super::piece::join;
use super::piece::join_runs;
use super::piece::append;
use super::piece::nothing;
use super::piece::runs_view;
use super::piece::word;
use super::piece::Piece;
use crate::geometry::Coordinate;
use crate::geometry::Line;
use crate::geometry::LineString;
use crate::geometry::MultiLineString;
use vstd::prelude::*;

verus! {

/// A point as it stands in path data: `x`, a blank, `y`.
pub open spec fn coord_text(coord: Coordinate) -> Seq<Piece> {
    seq![Piece::Number(coord.x), Piece::Text(" "), Piece::Number(coord.y)]
}

/// A point as it stands in a list of points: `x`, a comma, `y`.
pub open spec fn point_text(coord: Coordinate) -> Seq<Piece> {
    seq![Piece::Number(coord.x), Piece::Text(","), Piece::Number(coord.y)]
}

/// The points of a chain as path data, with `L` between each two.
pub open spec fn line_path(points: Seq<Coordinate>) -> Seq<Piece> {
    join(points.map_values(|coord: Coordinate| coord_text(coord)), word("L"))
}

/// The points of a chain as a list of points, with a blank between each two.
pub open spec fn line_points(points: Seq<Coordinate>) -> Seq<Piece> {
    join(points.map_values(|coord: Coordinate| point_text(coord)), word(" "))
}

/// A chain as a `polyline` element; an empty chain as nothing.
pub open spec fn linestring_element(points: Seq<Coordinate>) -> Seq<Piece> {
    if points.len() == 0 {
        nothing()
    } else {
        word("<polyline points=\"") + line_points(points) + word("\"/>")
    }
}

/// A chain as path data that begins with `M`; an empty chain as nothing.
pub open spec fn linestring_path(points: Seq<Coordinate>) -> Seq<Piece> {
    if points.len() == 0 {
        nothing()
    } else {
        word("M") + line_path(points)
    }
}

/// Chains as `polyline` elements, one on each line.
pub open spec fn multi_linestring_element(chains: Seq<Seq<Coordinate>>) -> Seq<Piece> {
    join(chains.map_values(|points: Seq<Coordinate>| linestring_element(points)), word("\n"))
}

/// Chains as path data, one after the other.
pub open spec fn multi_linestring_path(chains: Seq<Seq<Coordinate>>) -> Seq<Piece> {
    join(chains.map_values(|points: Seq<Coordinate>| linestring_path(points)), nothing())
}

/// A segment as a `line` element.
pub open spec fn line_element(line: Line) -> Seq<Piece> {
    seq![
        Piece::Text("<line x1=\""),
        Piece::Number(line.start.x),
        Piece::Text("\" x2=\""),
        Piece::Number(line.end.x),
        Piece::Text("\" y1=\""),
        Piece::Number(line.start.y),
        Piece::Text("\" y2=\""),
        Piece::Number(line.end.y),
        Piece::Text("\"/>"),
    ]
}

/// A segment as path data: `M` and its start, `L` and its end.
pub open spec fn line_segment_path(line: Line) -> Seq<Piece> {
    word("M") + coord_text(line.start) + word("L") + coord_text(line.end)
}

/// A run made of one word.
pub(crate) fn one(text: &'static str) -> (out: Vec<Piece>)
    ensures
        out@ == word(text),
{
    let mut out: Vec<Piece> = Vec::new();
    out.push(Piece::Text(text));
    out
}

/// `before`, then `middle`, then `after`.
pub(crate) fn wrap(before: &'static str, middle: &Vec<Piece>, after: &'static str) -> (out: Vec<
    Piece,
>)
    ensures
        out@ == word(before) + middle@ + word(after),
{
    let mut out = one(before);
    append(&mut out, middle);
    out.push(Piece::Text(after));
    proof {
        assert(out@ =~= word(before) + middle@ + word(after));
    }
    out
}

/// A point as it stands in path data.
pub fn coord_to_svg(coord: &Coordinate) -> (out: Vec<Piece>)
    ensures
        out@ == coord_text(*coord),
{
    let mut out: Vec<Piece> = Vec::new();
    out.push(Piece::Number(coord.x));
    out.push(Piece::Text(" "));
    out.push(Piece::Number(coord.y));
    proof {
        assert(out@ =~= coord_text(*coord));
    }
    out
}

/// A point as it stands in a list of points.
pub fn coord_to_svg_point(coord: &Coordinate) -> (out: Vec<Piece>)
    ensures
        out@ == point_text(*coord),
{
    let mut out: Vec<Piece> = Vec::new();
    out.push(Piece::Number(coord.x));
    out.push(Piece::Text(","));
    out.push(Piece::Number(coord.y));
    proof {
        assert(out@ =~= point_text(*coord));
    }
    out
}

/// The points of a chain as a list of points.
pub fn line_to_svg(line: &LineString) -> (out: Vec<Piece>)
    ensures
        out@ == line_points(line@),
{
    let mut runs: Vec<Vec<Piece>> = Vec::new();
    let mut i: usize = 0;
    while i < line.0.len()
        invariant
            i <= line.0.len(),
            runs@.len() == i,
            forall|j: int| 0 <= j < i ==> (#[trigger] runs@[j])@ == point_text(line@[j]),
        decreases line.0.len() - i,
    {
        runs.push(coord_to_svg_point(&line.0[i]));
        i += 1;
    }
    proof {
        assert(runs_view(runs@) =~= line@.map_values(|coord: Coordinate| point_text(coord)));
    }
    join_runs(&runs, &one(" "))
}

/// The points of a chain as path data.
pub fn line_to_svg_string(line: &LineString) -> (out: Vec<Piece>)
    ensures
        out@ == line_path(line@),
{
    let mut runs: Vec<Vec<Piece>> = Vec::new();
    let mut i: usize = 0;
    while i < line.0.len()
        invariant
            i <= line.0.len(),
            runs@.len() == i,
            forall|j: int| 0 <= j < i ==> (#[trigger] runs@[j])@ == coord_text(line@[j]),
        decreases line.0.len() - i,
    {
        runs.push(coord_to_svg(&line.0[i]));
        i += 1;
    }
    proof {
        assert(runs_view(runs@) =~= line@.map_values(|coord: Coordinate| coord_text(coord)));
    }
    join_runs(&runs, &one("L"))
}

/// A chain as a `polyline` element.
pub fn linestring_to_svg(line: &LineString) -> (out: Vec<Piece>)
    ensures
        out@ == linestring_element(line@),
{
    if line.0.len() == 0 {
        Vec::new()
    } else {
        wrap("<polyline points=\"", &line_to_svg(line), "\"/>")
    }
}

/// A chain as path data that begins with `M`.
pub fn linestring_to_svg_string(line: &LineString) -> (out: Vec<Piece>)
    ensures
        out@ == linestring_path(line@),
{
    if line.0.len() == 0 {
        Vec::new()
    } else {
        let mut out = one("M");
        append(&mut out, &line_to_svg_string(line));
        out
    }
}

/// Chains as `polyline` elements, one on each line.
pub fn multi_linestring_to_svg(multi_line: &MultiLineString) -> (out: Vec<Piece>)
    ensures
        out@ == multi_linestring_element(multi_line@),
{
    let mut runs: Vec<Vec<Piece>> = Vec::new();
    let mut i: usize = 0;
    while i < multi_line.0.len()
        invariant
            i <= multi_line.0.len(),
            runs@.len() == i,
            forall|j: int|
                0 <= j < i ==> (#[trigger] runs@[j])@ == linestring_element(multi_line.0@[j]@),
        decreases multi_line.0.len() - i,
    {
        runs.push(linestring_to_svg(&multi_line.0[i]));
        i += 1;
    }
    proof {
        assert(runs_view(runs@) =~= multi_line@.map_values(
            |points: Seq<Coordinate>| linestring_element(points),
        ));
    }
    join_runs(&runs, &one("\n"))
}

/// Chains as path data, one after the other.
pub fn multi_linestring_to_svg_string(multi_line: &MultiLineString) -> (out: Vec<Piece>)
    ensures
        out@ == multi_linestring_path(multi_line@),
{
    let mut runs: Vec<Vec<Piece>> = Vec::new();
    let mut i: usize = 0;
    while i < multi_line.0.len()
        invariant
            i <= multi_line.0.len(),
            runs@.len() == i,
            forall|j: int|
                0 <= j < i ==> (#[trigger] runs@[j])@ == linestring_path(multi_line.0@[j]@),
        decreases multi_line.0.len() - i,
    {
        runs.push(linestring_to_svg_string(&multi_line.0[i]));
        i += 1;
    }
    proof {
        assert(runs_view(runs@) =~= multi_line@.map_values(
            |points: Seq<Coordinate>| linestring_path(points),
        ));
    }
    join_runs(&runs, &Vec::new())
}

/// A segment as a `line` element.
pub fn single_line_to_svg(line: &Line) -> (out: Vec<Piece>)
    ensures
        out@ == line_element(*line),
{
    let mut out: Vec<Piece> = Vec::new();
    out.push(Piece::Text("<line x1=\""));
    out.push(Piece::Number(line.start.x));
    out.push(Piece::Text("\" x2=\""));
    out.push(Piece::Number(line.end.x));
    out.push(Piece::Text("\" y1=\""));
    out.push(Piece::Number(line.start.y));
    out.push(Piece::Text("\" y2=\""));
    out.push(Piece::Number(line.end.y));
    out.push(Piece::Text("\"/>"));
    proof {
        assert(out@ =~= line_element(*line));
    }
    out
}

/// A segment as path data.
pub fn single_line_to_svg_string(line: &Line) -> (out: Vec<Piece>)
    ensures
        out@ == line_segment_path(*line),
{
    let mut out = one("M");
    append(&mut out, &coord_to_svg(&line.start));
    out.push(Piece::Text("L"));
    append(&mut out, &coord_to_svg(&line.end));
    proof {
        assert(out@ =~= line_segment_path(*line));
    }
    out
}

} // verus!
