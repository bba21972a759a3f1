//! From subpaths to shapes.
//!
//! Every subpath is a segment, an open chain or a ring, by the number of its
//! points and by whether it ends where it starts. All segments make one entry
//! of the result, all chains the next, and the rings the last: of the rings,
//! the first is the outer boundary of a polygon and the others are left out.

use crate::geometry::chains_view;
use crate::geometry::closed;
use crate::geometry::polygons_view;
use crate::geometry::Coordinate;
use crate::geometry::Geometry;
use crate::geometry::GeometryCollection;
use crate::geometry::GeometryView;
use crate::geometry::Line;
use crate::geometry::LineString;
use crate::geometry::MultiLineString;
use crate::geometry::MultiPolygon;
use crate::geometry::Polygon;
use crate::geometry::PolygonView;
use vstd::prelude::*;

verus! {

/// What one subpath is.
#[derive(Clone, Copy, Debug, PartialEq, Eq, Structural)]
pub enum Kind {
    /// No point at all.
    Empty,
    /// Exactly two points.
    Segment,
    /// More than two points, the last unlike the first.
    Chain,
    /// One point, or more than two with the last like the first.
    Ring,
}

/// What a subpath with these points is.
pub open spec fn kind_of(path: Seq<Coordinate>) -> Kind {
    if path.len() == 0 {
        Kind::Empty
    } else if path.len() == 2 {
        Kind::Segment
    } else if path.first() != path.last() {
        Kind::Chain
    } else {
        Kind::Ring
    }
}

/// The test for one kind of subpath.
pub open spec fn is_kind(kind: Kind) -> spec_fn(Seq<Coordinate>) -> bool {
    |path: Seq<Coordinate>| kind_of(path) == kind
}

/// The segment that a subpath of two points is.
pub open spec fn as_line() -> spec_fn(Seq<Coordinate>) -> Line {
    |path: Seq<Coordinate>| Line { start: path[0], end: path[1] }
}

/// The chain of two points that a segment is.
pub open spec fn as_chain() -> spec_fn(Line) -> Seq<Coordinate> {
    |line: Line| seq![line.start, line.end]
}

/// The points of each subpath.
pub open spec fn paths_view(paths: Seq<Vec<Coordinate>>) -> Seq<Seq<Coordinate>> {
    paths.map_values(|path: Vec<Coordinate>| path@)
}

/// The segments among the subpaths, in their order.
pub open spec fn segments_of(paths: Seq<Seq<Coordinate>>) -> Seq<Line> {
    paths.filter(is_kind(Kind::Segment)).map_values(as_line())
}

/// The open chains among the subpaths, in their order.
pub open spec fn chains_of(paths: Seq<Seq<Coordinate>>) -> Seq<Seq<Coordinate>> {
    paths.filter(is_kind(Kind::Chain))
}

/// The rings among the subpaths, in their order.
pub open spec fn rings_of(paths: Seq<Seq<Coordinate>>) -> Seq<Seq<Coordinate>> {
    paths.filter(is_kind(Kind::Ring))
}

/// The polygons made of some rings: none of none, and else the one that the
/// first ring bounds. The rings after the first are left out.
pub open spec fn rings_polygons(rings: Seq<Seq<Coordinate>>) -> Seq<PolygonView> {
    if rings.len() == 0 {
        Seq::empty()
    } else {
        seq![PolygonView { exterior: closed(rings[0]), interiors: Seq::empty() }]
    }
}

/// Segments as one shape: a single one as itself, others as chains of two
/// points each.
pub open spec fn lines_geometry(lines: Seq<Line>) -> GeometryView {
    if lines.len() == 1 {
        GeometryView::Line(lines[0])
    } else {
        GeometryView::MultiLineString(lines.map_values(as_chain()))
    }
}

/// Chains as one shape: a single one as itself.
pub open spec fn line_strings_geometry(chains: Seq<Seq<Coordinate>>) -> GeometryView {
    if chains.len() == 1 {
        GeometryView::LineString(chains[0])
    } else {
        GeometryView::MultiLineString(chains)
    }
}

/// Polygons as one shape: a single one as itself.
pub open spec fn polygons_geometry(polygons: Seq<PolygonView>) -> GeometryView {
    if polygons.len() == 1 {
        GeometryView::Polygon(polygons[0])
    } else {
        GeometryView::MultiPolygon(polygons)
    }
}

/// The shape as an entry of a collection, where there is anything to show.
pub open spec fn entry(present: bool, shape: GeometryView) -> Seq<GeometryView> {
    if present {
        seq![shape]
    } else {
        Seq::empty()
    }
}

/// The shapes that some subpaths are: the segments, then the chains, then the
/// polygon, each kind where there is one of it.
pub open spec fn path_geometries(paths: Seq<Seq<Coordinate>>) -> Seq<GeometryView> {
    let lines = segments_of(paths);
    let chains = chains_of(paths);
    let polygons = rings_polygons(rings_of(paths));
    entry(lines.len() > 0, lines_geometry(lines)) + entry(
        chains.len() > 0,
        line_strings_geometry(chains),
    ) + entry(polygons.len() > 0, polygons_geometry(polygons))
}

/// Says what one subpath is.
pub fn classify(path: &Vec<Coordinate>) -> (kind: Kind)
    ensures
        kind == kind_of(path@),
{
    let length = path.len();
    if length == 0 {
        Kind::Empty
    } else if length == 2 {
        Kind::Segment
    } else if path[0] != path[length - 1] {
        Kind::Chain
    } else {
        Kind::Ring
    }
}

/// A chain with these points.
fn chain_of(path: &Vec<Coordinate>) -> (chain: LineString)
    ensures
        chain@ == path@,
{
    let mut points: Vec<Coordinate> = Vec::new();
    let mut i: usize = 0;
    while i < path.len()
        invariant
            i <= path.len(),
            points@.len() == i,
            forall|j: int| 0 <= j < i ==> points@[j] == path@[j],
        decreases path.len() - i,
    {
        points.push(path[i]);
        i += 1;
    }
    proof {
        assert(points@ =~= path@);
    }
    LineString(points)
}

/// The polygon that the first of some rings bounds, where there is a ring.
pub fn parse_polygon_rings_to_geom(rings: &Vec<LineString>) -> (polygons: MultiPolygon)
    ensures
        polygons@ == rings_polygons(chains_view(rings@)),
{
    let mut found: Vec<Polygon> = Vec::new();
    if rings.len() > 0 {
        let polygon = Polygon::new(rings[0].clone(), Vec::new());
        proof {
            assert(polygon@.interiors =~= Seq::empty());
        }
        found.push(polygon);
    }
    proof {
        assert(polygons_view(found@) =~= rings_polygons(chains_view(rings@)));
    }
    MultiPolygon(found)
}

/// Segments as one shape.
pub fn map_lines_to_geometry(lines: &Vec<Line>) -> (shape: Geometry)
    ensures
        shape@ == lines_geometry(lines@),
{
    if lines.len() == 1 {
        Geometry::Line(lines[0])
    } else {
        let mut chains: Vec<LineString> = Vec::new();
        let mut i: usize = 0;
        while i < lines.len()
            invariant
                i <= lines.len(),
                chains@.len() == i,
                forall|j: int| 0 <= j < i ==> (#[trigger] chains@[j])@ == as_chain()(lines@[j]),
            decreases lines.len() - i,
        {
            let mut points: Vec<Coordinate> = Vec::new();
            points.push(lines[i].start);
            points.push(lines[i].end);
            proof {
                assert(points@ =~= as_chain()(lines@[i as int]));
            }
            chains.push(LineString(points));
            i += 1;
        }
        proof {
            assert(chains_view(chains@) =~= lines@.map_values(as_chain()));
        }
        Geometry::MultiLineString(MultiLineString(chains))
    }
}

/// Chains as one shape.
pub fn map_line_strings_to_geometry(line_strings: &Vec<LineString>) -> (shape: Geometry)
    ensures
        shape@ == line_strings_geometry(chains_view(line_strings@)),
{
    if line_strings.len() == 1 {
        Geometry::LineString(line_strings[0].clone())
    } else {
        let mut chains: Vec<LineString> = Vec::new();
        let mut i: usize = 0;
        while i < line_strings.len()
            invariant
                i <= line_strings.len(),
                chains@.len() == i,
                forall|j: int| 0 <= j < i ==> (#[trigger] chains@[j])@ == line_strings@[j]@,
            decreases line_strings.len() - i,
        {
            chains.push(line_strings[i].clone());
            i += 1;
        }
        proof {
            assert(chains_view(chains@) =~= chains_view(line_strings@));
        }
        Geometry::MultiLineString(MultiLineString(chains))
    }
}

/// Polygons as one shape.
pub fn map_polygons_to_geometry(polys: MultiPolygon) -> (shape: Geometry)
    ensures
        shape@ == polygons_geometry(polys@),
{
    if polys.0.len() == 1 {
        Geometry::Polygon(polys.0[0].clone())
    } else {
        Geometry::MultiPolygon(polys)
    }
}

/// The shapes that some subpaths are.
pub fn parse_path_segments_to_geom(paths: &Vec<Vec<Coordinate>>) -> (shapes: GeometryCollection)
    ensures
        shapes@ == path_geometries(paths_view(paths@)),
{
    let ghost rows = paths_view(paths@);
    let mut lines: Vec<Line> = Vec::new();
    let mut line_strings: Vec<LineString> = Vec::new();
    let mut poly_line_strings: Vec<LineString> = Vec::new();
    let mut i: usize = 0;
    while i < paths.len()
        invariant
            i <= paths.len(),
            rows == paths_view(paths@),
            lines@ == segments_of(rows.take(i as int)),
            chains_view(line_strings@) == chains_of(rows.take(i as int)),
            chains_view(poly_line_strings@) == rings_of(rows.take(i as int)),
        decreases paths.len() - i,
    {
        let path = &paths[i];
        proof {
            let before = rows.take(i as int);
            assert(rows.take(i + 1) =~= before.push(path@));
            before.lemma_filter_push(path@, is_kind(Kind::Segment));
            before.lemma_filter_push(path@, is_kind(Kind::Chain));
            before.lemma_filter_push(path@, is_kind(Kind::Ring));
        }
        match classify(path) {
            Kind::Empty => {},
            Kind::Segment => {
                lines.push(Line::new(path[0], path[1]));
                proof {
                    assert(lines@ =~= segments_of(rows.take(i + 1)));
                }
            },
            Kind::Chain => {
                line_strings.push(chain_of(path));
                proof {
                    assert(chains_view(line_strings@) =~= chains_of(rows.take(i + 1)));
                }
            },
            Kind::Ring => {
                poly_line_strings.push(chain_of(path));
                proof {
                    assert(chains_view(poly_line_strings@) =~= rings_of(rows.take(i + 1)));
                }
            },
        }
        i += 1;
    }
    proof {
        assert(rows.take(paths.len() as int) =~= rows);
    }
    let mut found: Vec<Geometry> = Vec::new();
    if lines.len() > 0 {
        found.push(map_lines_to_geometry(&lines));
    }
    if line_strings.len() > 0 {
        found.push(map_line_strings_to_geometry(&line_strings));
    }
    let polygons = parse_polygon_rings_to_geom(&poly_line_strings);
    if polygons.0.len() > 0 {
        found.push(map_polygons_to_geometry(polygons));
    }
    let shapes = GeometryCollection(found);
    proof {
        assert(shapes@ =~= path_geometries(rows));
    }
    shapes
}

/// A subpath of two points is a segment, whether or not the points differ,
/// and alone it is read as that segment: never as a chain or a polygon.
pub proof fn two_points_make_a_segment(path: Seq<Coordinate>)
    requires
        path.len() == 2,
    ensures
        kind_of(path) == Kind::Segment,
        path_geometries(seq![path]) == seq![
            GeometryView::Line(Line { start: path[0], end: path[1] }),
        ],
{
    lemma_alone(path);
    assert(segments_of(seq![path]) =~= seq![Line { start: path[0], end: path[1] }]);
    assert(path_geometries(seq![path]) =~= seq![
        GeometryView::Line(Line { start: path[0], end: path[1] }),
    ]);
}

/// A subpath of one point or of more than two is a ring exactly when its last
/// point has the bits of its first, and alone it is then read as the polygon
/// that it bounds, and else as a chain.
pub proof fn ring_exactly_when_closed(path: Seq<Coordinate>)
    requires
        path.len() != 0,
        path.len() != 2,
    ensures
        kind_of(path) == Kind::Ring <==> path.first() == path.last(),
        kind_of(path) == Kind::Chain <==> path.first() != path.last(),
        path.first() == path.last() ==> path_geometries(seq![path]) == seq![
            GeometryView::Polygon(PolygonView { exterior: path, interiors: Seq::empty() }),
        ],
        path.first() != path.last() ==> path_geometries(seq![path]) == seq![
            GeometryView::LineString(path),
        ],
{
    lemma_alone(path);
    if path.first() == path.last() {
        assert(rings_polygons(seq![path]) =~= seq![
            PolygonView { exterior: path, interiors: Seq::empty() },
        ]);
        assert(path_geometries(seq![path]) =~= seq![
            GeometryView::Polygon(PolygonView { exterior: path, interiors: Seq::empty() }),
        ]);
    } else {
        assert(path_geometries(seq![path]) =~= seq![GeometryView::LineString(path)]);
    }
}

/// Where the subpaths hold one chain and neither a segment nor a ring, the
/// collection has one entry, and that entry is the chain itself.
pub proof fn lone_chain_stays_bare(paths: Seq<Seq<Coordinate>>)
    requires
        chains_of(paths).len() == 1,
        segments_of(paths).len() == 0,
        rings_of(paths).len() == 0,
    ensures
        path_geometries(paths) == seq![GeometryView::LineString(chains_of(paths)[0])],
{
    assert(path_geometries(paths) =~= seq![GeometryView::LineString(chains_of(paths)[0])]);
}

/// Of a single subpath, each kind holds it or nothing.
pub proof fn lemma_alone(path: Seq<Coordinate>)
    ensures
        segments_of(seq![path]) == if kind_of(path) == Kind::Segment {
            seq![Line { start: path[0], end: path[1] }]
        } else {
            Seq::empty()
        },
        chains_of(seq![path]) == if kind_of(path) == Kind::Chain {
            seq![path]
        } else {
            Seq::empty()
        },
        rings_of(seq![path]) == if kind_of(path) == Kind::Ring {
            seq![path]
        } else {
            Seq::empty()
        },
{
    let none = Seq::<Seq<Coordinate>>::empty();
    assert(seq![path] =~= none.push(path));
    reveal(Seq::filter);
    assert(none.filter(is_kind(Kind::Segment)) =~= none);
    assert(none.filter(is_kind(Kind::Chain)) =~= none);
    assert(none.filter(is_kind(Kind::Ring)) =~= none);
    none.lemma_filter_push(path, is_kind(Kind::Segment));
    none.lemma_filter_push(path, is_kind(Kind::Chain));
    none.lemma_filter_push(path, is_kind(Kind::Ring));
    assert(segments_of(seq![path]) =~= if kind_of(path) == Kind::Segment {
        seq![Line { start: path[0], end: path[1] }]
    } else {
        Seq::empty()
    });
    assert(chains_of(seq![path]) =~= if kind_of(path) == Kind::Chain {
        seq![path]
    } else {
        Seq::empty()
    });
    assert(rings_of(seq![path]) =~= if kind_of(path) == Kind::Ring {
        seq![path]
    } else {
        Seq::empty()
    });
}

/// The collection has one entry for each kind of which there is a subpath:
/// three at most, and none where every subpath is empty.
pub proof fn one_entry_for_each_kind(paths: Seq<Seq<Coordinate>>)
    ensures
        path_geometries(paths).len() == (if segments_of(paths).len() > 0 {
            1nat
        } else {
            0nat
        }) + (if chains_of(paths).len() > 0 {
            1nat
        } else {
            0nat
        }) + (if rings_of(paths).len() > 0 {
            1nat
        } else {
            0nat
        }),
        path_geometries(paths).len() <= 3,
{
}

} // verus!
