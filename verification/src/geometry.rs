//! The shapes that are read and written.

use vstd::prelude::*;

verus! {

/// A point of the plane. Each axis holds the 64 bits of a double; two points
/// are the same when their bits are.
#[derive(Clone, Copy, Debug, PartialEq, Eq, Structural)]
pub struct Coordinate {
    pub x: u64,
    pub y: u64,
}

/// A straight segment between two points.
#[derive(Clone, Copy, Debug, PartialEq, Eq, Structural)]
pub struct Line {
    pub start: Coordinate,
    pub end: Coordinate,
}

/// A chain of points, each joined to the next by a straight segment.
#[derive(Debug, PartialEq, Eq)]
pub struct LineString(pub Vec<Coordinate>);

/// An area, bounded by one outer ring and any number of inner rings. Every
/// ring is closed: it is empty, or ends on the point it starts from.
#[derive(Debug, PartialEq, Eq)]
pub struct Polygon {
    exterior: LineString,
    interiors: Vec<LineString>,
}

/// Several chains.
#[derive(Debug, PartialEq, Eq)]
pub struct MultiLineString(pub Vec<LineString>);

/// Several areas.
#[derive(Debug, PartialEq, Eq)]
pub struct MultiPolygon(pub Vec<Polygon>);

/// An upright rectangle: its corner of least `x` and `y`, and its size.
#[derive(Clone, Copy, Debug, PartialEq, Eq, Structural)]
pub struct Rect {
    pub min: Coordinate,
    pub width: u64,
    pub height: u64,
}

/// A triangle, by its three corners.
#[derive(Clone, Copy, Debug, PartialEq, Eq, Structural)]
pub struct Triangle(pub Coordinate, pub Coordinate, pub Coordinate);

/// Any one shape that path data can describe.
#[derive(Debug, PartialEq, Eq)]
pub enum Geometry {
    Line(Line),
    LineString(LineString),
    Polygon(Polygon),
    MultiLineString(MultiLineString),
    MultiPolygon(MultiPolygon),
}

/// Shapes in the order in which they were found.
#[derive(Debug, PartialEq, Eq)]
pub struct GeometryCollection(pub Vec<Geometry>);

/// What a [`Polygon`] holds.
pub ghost struct PolygonView {
    pub exterior: Seq<Coordinate>,
    pub interiors: Seq<Seq<Coordinate>>,
}

/// What a [`Geometry`] holds.
pub ghost enum GeometryView {
    Line(Line),
    LineString(Seq<Coordinate>),
    Polygon(PolygonView),
    MultiLineString(Seq<Seq<Coordinate>>),
    MultiPolygon(Seq<PolygonView>),
}

/// A chain is closed when it is empty or ends on the point it starts from.
pub open spec fn is_closed(points: Seq<Coordinate>) -> bool {
    points.len() == 0 || points.first() == points.last()
}

/// `points`, with the first point repeated at the end unless the chain is
/// closed already.
pub open spec fn closed(points: Seq<Coordinate>) -> Seq<Coordinate> {
    if is_closed(points) {
        points
    } else {
        points.push(points.first())
    }
}

/// The points of each chain.
pub open spec fn chains_view(chains: Seq<LineString>) -> Seq<Seq<Coordinate>> {
    chains.map_values(|chain: LineString| chain@)
}

/// What each polygon holds.
pub open spec fn polygons_view(polygons: Seq<Polygon>) -> Seq<PolygonView> {
    polygons.map_values(|polygon: Polygon| polygon@)
}

/// What each geometry holds.
pub open spec fn geometries_view(geometries: Seq<Geometry>) -> Seq<GeometryView> {
    geometries.map_values(|geometry: Geometry| geometry@)
}

impl View for LineString {
    type V = Seq<Coordinate>;

    open spec fn view(&self) -> Seq<Coordinate> {
        self.0@
    }
}

impl View for MultiLineString {
    type V = Seq<Seq<Coordinate>>;

    open spec fn view(&self) -> Seq<Seq<Coordinate>> {
        chains_view(self.0@)
    }
}

impl View for Polygon {
    type V = PolygonView;

    closed spec fn view(&self) -> PolygonView {
        PolygonView { exterior: self.exterior@, interiors: chains_view(self.interiors@) }
    }
}

impl View for MultiPolygon {
    type V = Seq<PolygonView>;

    open spec fn view(&self) -> Seq<PolygonView> {
        polygons_view(self.0@)
    }
}

impl View for Geometry {
    type V = GeometryView;

    open spec fn view(&self) -> GeometryView {
        match *self {
            Geometry::Line(line) => GeometryView::Line(line),
            Geometry::LineString(chain) => GeometryView::LineString(chain@),
            Geometry::Polygon(polygon) => GeometryView::Polygon(polygon@),
            Geometry::MultiLineString(chains) => GeometryView::MultiLineString(chains@),
            Geometry::MultiPolygon(polygons) => GeometryView::MultiPolygon(polygons@),
        }
    }
}

impl View for GeometryCollection {
    type V = Seq<GeometryView>;

    open spec fn view(&self) -> Seq<GeometryView> {
        geometries_view(self.0@)
    }
}

impl Clone for LineString {
    fn clone(&self) -> (copy: LineString)
        ensures
            copy@ == self@,
    {
        let mut points: Vec<Coordinate> = Vec::new();
        let mut i: usize = 0;
        while i < self.0.len()
            invariant
                i <= self.0.len(),
                points@.len() == i,
                forall|j: int| 0 <= j < i ==> points@[j] == self.0@[j],
            decreases self.0.len() - i,
        {
            points.push(self.0[i]);
            i += 1;
        }
        proof {
            assert(points@ =~= self.0@);
        }
        LineString(points)
    }
}

/// A copy of each chain.
fn clone_chains(chains: &Vec<LineString>) -> (copy: Vec<LineString>)
    ensures
        chains_view(copy@) == chains_view(chains@),
        copy@.len() == chains@.len(),
        forall|j: int| 0 <= j < chains@.len() ==> (#[trigger] copy@[j])@ == chains@[j]@,
{
    let mut copy: Vec<LineString> = Vec::new();
    let mut i: usize = 0;
    while i < chains.len()
        invariant
            i <= chains.len(),
            copy@.len() == i,
            forall|j: int| 0 <= j < i ==> (#[trigger] copy@[j])@ == chains@[j]@,
        decreases chains.len() - i,
    {
        copy.push(chains[i].clone());
        i += 1;
    }
    proof {
        assert(chains_view(copy@) =~= chains_view(chains@));
    }
    copy
}

impl Clone for MultiLineString {
    fn clone(&self) -> (copy: MultiLineString)
        ensures
            copy@ == self@,
    {
        MultiLineString(clone_chains(&self.0))
    }
}

impl Clone for Polygon {
    fn clone(&self) -> (copy: Polygon)
        ensures
            copy@ == self@,
    {
        proof {
            use_type_invariant(self);
        }
        let exterior = self.exterior.clone();
        let interiors = clone_chains(&self.interiors);
        Polygon { exterior, interiors }
    }
}

impl Clone for MultiPolygon {
    fn clone(&self) -> (copy: MultiPolygon)
        ensures
            copy@ == self@,
    {
        let mut copy: Vec<Polygon> = Vec::new();
        let mut i: usize = 0;
        while i < self.0.len()
            invariant
                i <= self.0.len(),
                copy@.len() == i,
                forall|j: int| 0 <= j < i ==> (#[trigger] copy@[j])@ == self.0@[j]@,
            decreases self.0.len() - i,
        {
            copy.push(self.0[i].clone());
            i += 1;
        }
        proof {
            assert(polygons_view(copy@) =~= polygons_view(self.0@));
        }
        MultiPolygon(copy)
    }
}

impl Clone for Geometry {
    fn clone(&self) -> (copy: Geometry)
        ensures
            copy@ == self@,
    {
        match self {
            Geometry::Line(line) => Geometry::Line(*line),
            Geometry::LineString(chain) => Geometry::LineString(chain.clone()),
            Geometry::Polygon(polygon) => Geometry::Polygon(polygon.clone()),
            Geometry::MultiLineString(chains) => Geometry::MultiLineString(chains.clone()),
            Geometry::MultiPolygon(polygons) => Geometry::MultiPolygon(polygons.clone()),
        }
    }
}

impl Clone for GeometryCollection {
    fn clone(&self) -> (copy: GeometryCollection)
        ensures
            copy@ == self@,
    {
        let mut copy: Vec<Geometry> = Vec::new();
        let mut i: usize = 0;
        while i < self.0.len()
            invariant
                i <= self.0.len(),
                copy@.len() == i,
                forall|j: int| 0 <= j < i ==> (#[trigger] copy@[j])@ == self.0@[j]@,
            decreases self.0.len() - i,
        {
            copy.push(self.0[i].clone());
            i += 1;
        }
        proof {
            assert(geometries_view(copy@) =~= geometries_view(self.0@));
        }
        GeometryCollection(copy)
    }
}

impl Line {
    pub fn new(start: Coordinate, end: Coordinate) -> (line: Line)
        ensures
            line == (Line { start, end }),
    {
        Line { start, end }
    }
}

impl LineString {
    /// Repeats the first point at the end unless the chain is closed already.
    pub fn close(&mut self)
        ensures
            final(self)@ == closed(old(self)@),
    {
        let n = self.0.len();
        if n > 0 {
            let first = self.0[0];
            let last = self.0[n - 1];
            if first != last {
                self.0.push(first);
            }
        }
    }

    /// The number of points.
    pub fn num_coords(&self) -> (n: usize)
        ensures
            n == self@.len(),
    {
        self.0.len()
    }
}

impl Polygon {
    #[verifier::type_invariant]
    closed spec fn rings_are_closed(self) -> bool {
        &&& is_closed(self.exterior@)
        &&& forall|i: int| 0 <= i < self.interiors@.len() ==> is_closed(#[trigger] self.interiors@[i]@)
    }

    /// The polygon with these rings, each closed first.
    pub fn new(exterior: LineString, interiors: Vec<LineString>) -> (polygon: Polygon)
        ensures
            polygon@.exterior == closed(exterior@),
            polygon@.interiors == chains_view(interiors@).map_values(
                |ring: Seq<Coordinate>| closed(ring),
            ),
    {
        let mut exterior = exterior;
        let mut interiors = interiors;
        let ghost given = chains_view(interiors@);
        exterior.close();
        let mut i: usize = 0;
        while i < interiors.len()
            invariant
                i <= interiors.len(),
                interiors.len() == given.len(),
                forall|j: int| 0 <= j < i ==> (#[trigger] interiors@[j])@ == closed(given[j]),
                forall|j: int| i <= j < given.len() ==> (#[trigger] interiors@[j])@ == given[j],
            decreases interiors.len() - i,
        {
            let mut ring = LineString(Vec::new());
            std::mem::swap(&mut ring, &mut interiors[i]);
            ring.close();
            interiors[i] = ring;
            i += 1;
        }
        proof {
            assert(chains_view(interiors@) =~= given.map_values(
                |ring: Seq<Coordinate>| closed(ring),
            ));
        }
        Polygon { exterior, interiors }
    }

    /// The outer ring.
    pub fn exterior(&self) -> (ring: &LineString)
        ensures
            ring@ == self@.exterior,
            is_closed(ring@),
    {
        proof {
            use_type_invariant(self);
        }
        &self.exterior
    }

    /// The inner rings.
    pub fn interiors(&self) -> (rings: &Vec<LineString>)
        ensures
            chains_view(rings@) == self@.interiors,
            forall|i: int| 0 <= i < rings@.len() ==> is_closed(#[trigger] rings@[i]@),
    {
        proof {
            use_type_invariant(self);
        }
        &self.interiors
    }
}

impl Geometry {
    /// The segment, if the shape is one.
    pub fn into_line(self) -> (found: Option<Line>)
        ensures
            found == (match self@ {
                GeometryView::Line(line) => Some(line),
                _ => None,
            }),
    {
        match self {
            Geometry::Line(line) => Some(line),
            _ => None,
        }
    }

    /// The chain, if the shape is one.
    pub fn into_line_string(self) -> (found: Option<LineString>)
        ensures
            match found {
                Some(chain) => self@ == GeometryView::LineString(chain@),
                None => !(self@ is LineString),
            },
    {
        match self {
            Geometry::LineString(chain) => Some(chain),
            _ => None,
        }
    }

    /// The polygon, if the shape is one.
    pub fn into_polygon(self) -> (found: Option<Polygon>)
        ensures
            match found {
                Some(polygon) => self@ == GeometryView::Polygon(polygon@),
                None => !(self@ is Polygon),
            },
    {
        match self {
            Geometry::Polygon(polygon) => Some(polygon),
            _ => None,
        }
    }

    /// The chains, if the shape is several of them.
    pub fn into_multi_line_string(self) -> (found: Option<MultiLineString>)
        ensures
            match found {
                Some(chains) => self@ == GeometryView::MultiLineString(chains@),
                None => !(self@ is MultiLineString),
            },
    {
        match self {
            Geometry::MultiLineString(chains) => Some(chains),
            _ => None,
        }
    }

    /// The polygons, if the shape is several of them.
    pub fn into_multi_polygon(self) -> (found: Option<MultiPolygon>)
        ensures
            match found {
                Some(polygons) => self@ == GeometryView::MultiPolygon(polygons@),
                None => !(self@ is MultiPolygon),
            },
    {
        match self {
            Geometry::MultiPolygon(polygons) => Some(polygons),
            _ => None,
        }
    }
}

impl GeometryCollection {
    /// The number of shapes.
    pub fn len(&self) -> (n: usize)
        ensures
            n == self@.len(),
    {
        self.0.len()
    }

    /// Whether there is no shape.
    pub fn is_empty(&self) -> (empty: bool)
        ensures
            empty == (self@.len() == 0),
    {
        self.0.len() == 0
    }
}

} // verus!
