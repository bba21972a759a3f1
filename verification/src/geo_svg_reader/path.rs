//! From path commands to shapes.

use super::classify::chains_of;
use super::classify::kind_of;
use super::classify::lone_chain_stays_bare;
use super::classify::parse_path_segments_to_geom;
use super::classify::path_geometries;
use super::classify::paths_view;
use super::classify::rings_of;
use super::classify::segments_of;
use super::classify::Kind;
use super::command::apply;
use super::command::cursor_after;
use super::command::lemma_point_count;
use super::command::points_of;
use super::command::Command;
use super::command::Cursor;
use super::error::InvalidSvgError;
use super::error::SvgError;
use super::error::SvgGeometryCollectionForGeometryError;
use super::flatten::SAMPLES;
use crate::arith::computes;
use crate::arith::total;
use crate::arith::Op;
use crate::geometry::is_closed;
use crate::geometry::Coordinate;
use crate::geometry::Geometry;
use crate::geometry::GeometryCollection;
use crate::geometry::GeometryView;
use vstd::prelude::*;

verus! {

/// What has been drawn so far, and where the pen is.
pub ghost struct PathState {
    pub subpaths: Seq<Seq<Coordinate>>,
    pub cursor: Cursor,
}

/// The error for path data that draws nothing that can be read.
pub open spec fn invalid() -> SvgError {
    SvgError::InvalidSvgError(InvalidSvgError)
}

/// The error for a drawing of several shapes where one is asked for.
pub open spec fn several() -> SvgError {
    SvgError::SvgGeomCollectionForGeometry(SvgGeometryCollectionForGeometryError)
}

/// Path data can be read when a subpath is begun before anything is drawn: a
/// command that begins one stands in it, with no drawing command before it.
pub open spec fn readable(commands: Seq<Command>) -> bool {
    exists|i: int|
        0 <= i < commands.len() && (#[trigger] commands[i]).opens() && forall|j: int|
            0 <= j < i ==> !(#[trigger] commands[j]).draws()
}

/// The state after one more command, with each curve cut in `parts`. A
/// command that begins a subpath adds one, made of its point. A drawing
/// command adds its points to the last subpath; where there is none yet, the
/// path data cannot be read.
pub open spec fn step(
    k: spec_fn(Op) -> u64,
    parts: u32,
    state: PathState,
    command: Command,
) -> Option<PathState> {
    let points = points_of(k, state.cursor, command, parts);
    let cursor = cursor_after(k, state.cursor, command);
    if command.opens() {
        Some(PathState { subpaths: state.subpaths.push(points), cursor })
    } else if !command.draws() {
        Some(PathState { subpaths: state.subpaths, cursor })
    } else if state.subpaths.len() == 0 {
        None
    } else {
        let last = state.subpaths.len() - 1;
        Some(
            PathState { subpaths: state.subpaths.update(last, state.subpaths[last] + points), cursor },
        )
    }
}

/// The state after all the commands, taken in their order from a pen that has
/// drawn nothing.
pub open spec fn run(k: spec_fn(Op) -> u64, parts: u32, commands: Seq<Command>) -> Option<
    PathState,
>
    decreases commands.len(),
{
    if commands.len() == 0 {
        Some(PathState { subpaths: Seq::empty(), cursor: Cursor::initial() })
    } else {
        match run(k, parts, commands.drop_last()) {
            Some(state) => step(k, parts, state, commands.last()),
            None => None,
        }
    }
}

/// The subpaths that the commands draw, or the error where they draw none
/// that can be read.
pub open spec fn path_subpaths(k: spec_fn(Op) -> u64, parts: u32, commands: Seq<Command>) -> Result<
    Seq<Seq<Coordinate>>,
    SvgError,
> {
    match run(k, parts, commands) {
        Some(state) => if state.subpaths.len() > 0 {
            Ok(state.subpaths)
        } else {
            Err(invalid())
        },
        None => Err(invalid()),
    }
}

/// The shapes that the commands draw.
pub open spec fn path_collection(k: spec_fn(Op) -> u64, parts: u32, commands: Seq<Command>) -> Result<
    Seq<GeometryView>,
    SvgError,
> {
    match path_subpaths(k, parts, commands) {
        Ok(subpaths) => Ok(path_geometries(subpaths)),
        Err(error) => Err(error),
    }
}

/// The one shape of a collection, or the error where it holds another number
/// of them.
pub open spec fn only(shapes: Seq<GeometryView>) -> Result<GeometryView, SvgError> {
    if shapes.len() == 1 {
        Ok(shapes[0])
    } else {
        Err(several())
    }
}

/// The one shape that the commands draw.
pub open spec fn path_geometry(k: spec_fn(Op) -> u64, parts: u32, commands: Seq<Command>) -> Result<
    GeometryView,
    SvgError,
> {
    match path_collection(k, parts, commands) {
        Ok(shapes) => only(shapes),
        Err(error) => Err(error),
    }
}

/// What a result of subpaths holds.
pub open spec fn subpaths_view(found: Result<Vec<Vec<Coordinate>>, SvgError>) -> Result<
    Seq<Seq<Coordinate>>,
    SvgError,
> {
    match found {
        Ok(subpaths) => Ok(paths_view(subpaths@)),
        Err(error) => Err(error),
    }
}

/// What a result of shapes holds.
pub open spec fn collection_view(found: Result<GeometryCollection, SvgError>) -> Result<
    Seq<GeometryView>,
    SvgError,
> {
    match found {
        Ok(shapes) => Ok(shapes@),
        Err(error) => Err(error),
    }
}

/// What a result of one shape holds.
pub open spec fn geometry_view(found: Result<Geometry, SvgError>) -> Result<
    GeometryView,
    SvgError,
> {
    match found {
        Ok(shape) => Ok(shape@),
        Err(error) => Err(error),
    }
}

/// Once the commands cannot be read, more commands do not mend them.
proof fn lemma_unreadable_stays(k: spec_fn(Op) -> u64, parts: u32, commands: Seq<Command>, i: int)
    requires
        0 <= i <= commands.len(),
        run(k, parts, commands.take(i)) is None,
    ensures
        run(k, parts, commands) is None,
    decreases commands.len() - i,
{
    if i < commands.len() {
        assert(commands.take(i + 1).drop_last() =~= commands.take(i));
        lemma_unreadable_stays(k, parts, commands, i + 1);
    } else {
        assert(commands.take(i) =~= commands);
    }
}

/// Adds points at the end of the last subpath.
fn extend_last(subpaths: &mut Vec<Vec<Coordinate>>, points: &Vec<Coordinate>)
    requires
        old(subpaths)@.len() > 0,
    ensures
        final(subpaths)@.len() == old(subpaths)@.len(),
        paths_view(final(subpaths)@) == paths_view(old(subpaths)@).update(
            old(subpaths)@.len() - 1,
            old(subpaths)@.last()@ + points@,
        ),
{
    let ghost before = paths_view(subpaths@);
    let last = subpaths.len() - 1;
    let mut j: usize = 0;
    while j < points.len()
        invariant
            j <= points.len(),
            subpaths@.len() == last + 1,
            before.len() == last + 1,
            subpaths@[last as int]@ == before[last as int] + points@.take(j as int),
            forall|m: int| 0 <= m < last ==> (#[trigger] subpaths@[m])@ == before[m],
        decreases points.len() - j,
    {
        subpaths[last].push(points[j]);
        proof {
            assert(points@.take(j + 1) =~= points@.take(j as int).push(points@[j as int]));
            assert(subpaths@[last as int]@ =~= before[last as int] + points@.take(j + 1));
        }
        j += 1;
    }
    proof {
        assert(points@.take(points.len() as int) =~= points@);
        assert(paths_view(subpaths@) =~= before.update(last as int, before[last as int] + points@));
    }
}

/// The subpaths that the commands draw, with each curve cut in `parts`.
/// Whether there are any, and how many, does not depend on the arithmetic.
pub fn commands_to_subpaths<A: Fn(Op) -> u64>(commands: &Vec<Command>, parts: u32, arith: &A) -> (found:
    Result<Vec<Vec<Coordinate>>, SvgError>)
    requires
        total(*arith),
    ensures
        found is Ok <==> readable(commands@),
        found is Ok ==> found->Ok_0@.len() == begun(commands@),
        found is Err ==> found == Err::<Vec<Vec<Coordinate>>, SvgError>(invalid()),
        forall|k: spec_fn(Op) -> u64| #[trigger]
            computes(*arith, k) ==> subpaths_view(found) == path_subpaths(k, parts, commands@),
{
    let mut subpaths: Vec<Vec<Coordinate>> = Vec::new();
    let mut cursor = Cursor::new();
    let mut i: usize = 0;
    proof {
        assert(paths_view(subpaths@) =~= Seq::empty());
    }
    while i < commands.len()
        invariant
            total(*arith),
            i <= commands.len(),
            subpaths@.len() == 0 ==> forall|j: int|
                0 <= j < i ==> !(#[trigger] commands@[j]).draws() && !commands@[j].opens(),
            subpaths@.len() > 0 ==> readable(commands@),
            subpaths@.len() == begun(commands@.take(i as int)),
            forall|k: spec_fn(Op) -> u64| #[trigger]
                computes(*arith, k) ==> run(k, parts, commands@.take(i as int)) == Some(
                    PathState { subpaths: paths_view(subpaths@), cursor },
                ),
        decreases commands.len() - i,
    {
        let command = commands[i];
        let ghost before = paths_view(subpaths@);
        proof {
            assert(commands@.take(i + 1).drop_last() =~= commands@.take(i as int));
        }
        if command.draws_points() && subpaths.len() == 0 {
            proof {
                assert forall|k: spec_fn(Op) -> u64| #[trigger]
                    computes(*arith, k) implies run(k, parts, commands@) is None by {
                    lemma_unreadable_stays(k, parts, commands@, i + 1);
                }
            }
            return Err(SvgError::InvalidSvgError(InvalidSvgError));
        }
        let (next, points) = apply(cursor, &command, parts, arith);
        if command.begins_subpath() {
            subpaths.push(points);
            proof {
                assert(paths_view(subpaths@) =~= before.push(points@));
            }
        } else if command.draws_points() {
            extend_last(&mut subpaths, &points);
        }
        cursor = next;
        i += 1;
    }
    proof {
        assert(commands@.take(commands.len() as int) =~= commands@);
    }
    if subpaths.len() == 0 {
        Err(SvgError::InvalidSvgError(InvalidSvgError))
    } else {
        Ok(subpaths)
    }
}

/// The shapes that the commands draw: each curve as a hundred points, its end
/// among them. Whether the commands can be read does not depend on the
/// arithmetic.
pub fn commands_to_geometry_collection<A: Fn(Op) -> u64>(commands: &Vec<Command>, arith: &A) -> (found:
    Result<GeometryCollection, SvgError>)
    requires
        total(*arith),
    ensures
        found is Ok <==> readable(commands@),
        found is Err ==> found == Err::<GeometryCollection, SvgError>(invalid()),
        forall|k: spec_fn(Op) -> u64| #[trigger]
            computes(*arith, k) ==> collection_view(found) == path_collection(
                k,
                SAMPLES,
                commands@,
            ),
{
    match commands_to_subpaths(commands, SAMPLES, arith) {
        Ok(subpaths) => Ok(parse_path_segments_to_geom(&subpaths)),
        Err(error) => Err(error),
    }
}

/// The one shape of a collection.
pub fn single_geometry(shapes: &GeometryCollection) -> (found: Result<Geometry, SvgError>)
    ensures
        geometry_view(found) == only(shapes@),
{
    if shapes.0.len() == 1 {
        Ok(shapes.0[0].clone())
    } else {
        Err(SvgError::SvgGeomCollectionForGeometry(SvgGeometryCollectionForGeometryError))
    }
}

/// The one shape that the commands draw. Where they draw shapes of several
/// kinds, that is an error.
pub fn commands_to_geometry<A: Fn(Op) -> u64>(commands: &Vec<Command>, arith: &A) -> (found: Result<
    Geometry,
    SvgError,
>)
    requires
        total(*arith),
    ensures
        !readable(commands@) ==> found == Err::<Geometry, SvgError>(invalid()),
        found is Err ==> found->Err_0 == invalid() || found->Err_0 == several(),
        forall|k: spec_fn(Op) -> u64| #[trigger]
            computes(*arith, k) ==> geometry_view(found) == path_geometry(k, SAMPLES, commands@),
{
    match commands_to_geometry_collection(commands, arith) {
        Ok(shapes) => single_geometry(&shapes),
        Err(error) => Err(error),
    }
}

/// A drawing command stands in the path data before any subpath is begun.
pub open spec fn stray(commands: Seq<Command>) -> bool {
    exists|i: int|
        0 <= i < commands.len() && (#[trigger] commands[i]).draws() && forall|j: int|
            0 <= j < i ==> !(#[trigger] commands[j]).opens()
}

/// How far the commands have come, whatever the arithmetic: they cannot be
/// read once a drawing command is astray, they have drawn nothing while no
/// command has begun a subpath, and else they can be read.
pub proof fn lemma_run_comes_to(k: spec_fn(Op) -> u64, parts: u32, commands: Seq<Command>)
    ensures
        match run(k, parts, commands) {
            None => stray(commands),
            Some(state) => if state.subpaths.len() == 0 {
                forall|j: int|
                    0 <= j < commands.len() ==> !(#[trigger] commands[j]).opens()
                        && !commands[j].draws()
            } else {
                readable(commands)
            },
        },
    decreases commands.len(),
{
    if commands.len() > 0 {
        let before = commands.drop_last();
        let last = commands.len() - 1;
        lemma_run_comes_to(k, parts, before);
        assert(forall|j: int| 0 <= j < last ==> before[j] == commands[j]);
        match run(k, parts, before) {
            None => {
                let i = choose|i: int|
                    0 <= i < before.len() && (#[trigger] before[i]).draws() && forall|j: int|
                        0 <= j < i ==> !(#[trigger] before[j]).opens();
                assert(commands[i].draws());
            },
            Some(state) => {
                if state.subpaths.len() == 0 {
                    if commands[last].opens() {
                        assert(commands[last].opens());
                    } else if commands[last].draws() {
                        assert(commands[last].draws());
                    }
                } else {
                    let i = choose|i: int|
                        0 <= i < before.len() && (#[trigger] before[i]).opens() && forall|j: int|
                            0 <= j < i ==> !(#[trigger] before[j]).draws();
                    assert(commands[i].opens());
                }
            },
        }
    }
}

/// Whether path data can be read does not depend on the arithmetic: it gives
/// subpaths exactly when it begins one before it draws.
pub proof fn read_exactly_when_readable(k: spec_fn(Op) -> u64, parts: u32, commands: Seq<Command>)
    ensures
        path_subpaths(k, parts, commands) is Ok <==> readable(commands),
        path_collection(k, parts, commands) is Ok <==> readable(commands),
        !readable(commands) ==> path_geometry(k, parts, commands) == Err::<GeometryView, SvgError>(
            invalid(),
        ),
{
    lemma_run_comes_to(k, parts, commands);
    if stray(commands) && readable(commands) {
        let d = choose|i: int|
            0 <= i < commands.len() && (#[trigger] commands[i]).draws() && forall|j: int|
                0 <= j < i ==> !(#[trigger] commands[j]).opens();
        let m = choose|i: int|
            0 <= i < commands.len() && (#[trigger] commands[i]).opens() && forall|j: int|
                0 <= j < i ==> !(#[trigger] commands[j]).draws();
        if m < d {
            assert(!commands[m].opens());
        } else {
            assert(!commands[d].draws());
        }
    }
}

/// The number of commands that begin a subpath.
pub open spec fn begun(commands: Seq<Command>) -> nat
    decreases commands.len(),
{
    if commands.len() == 0 {
        0
    } else if commands.last().opens() {
        begun(commands.drop_last()) + 1
    } else {
        begun(commands.drop_last())
    }
}

/// There are as many subpaths as commands that begin one, none of them is
/// empty, and the pen remembers the first point of the last one.
pub proof fn lemma_run_shape(k: spec_fn(Op) -> u64, parts: u32, commands: Seq<Command>)
    requires
        run(k, parts, commands) is Some,
    ensures
        ({
            let state = run(k, parts, commands)->Some_0;
            &&& state.subpaths.len() == begun(commands)
            &&& forall|j: int| 0 <= j < state.subpaths.len() ==> (#[trigger] state.subpaths[j]).len() >= 1
            &&& state.subpaths.len() > 0 ==> state.cursor.start == Some(state.subpaths.last()[0])
            &&& state.subpaths.len() == 0 ==> state.cursor.start is None
        }),
    decreases commands.len(),
{
    if commands.len() > 0 {
        lemma_run_shape(k, parts, commands.drop_last());
        let before = run(k, parts, commands.drop_last())->Some_0;
        lemma_point_count(k, before.cursor, commands.last(), parts);
    }
}

/// What has been drawn stays: after more commands there are no fewer
/// subpaths, and each begins with the points that it had.
pub proof fn lemma_run_grows(k: spec_fn(Op) -> u64, parts: u32, commands: Seq<Command>, i: int)
    requires
        0 <= i <= commands.len(),
        run(k, parts, commands) is Some,
    ensures
        run(k, parts, commands.take(i)) is Some,
        ({
            let early = run(k, parts, commands.take(i))->Some_0;
            let late = run(k, parts, commands)->Some_0;
            &&& early.subpaths.len() <= late.subpaths.len()
            &&& forall|j: int|
                0 <= j < early.subpaths.len() ==> (#[trigger] early.subpaths[j]).is_prefix_of(
                    late.subpaths[j],
                )
        }),
    decreases commands.len(),
{
    if i == commands.len() {
        assert(commands.take(i) =~= commands);
    } else {
        assert(commands.drop_last().take(i) =~= commands.take(i));
        lemma_run_grows(k, parts, commands.drop_last(), i);
        let early = run(k, parts, commands.take(i))->Some_0;
        let middle = run(k, parts, commands.drop_last())->Some_0;
        let late = run(k, parts, commands)->Some_0;
        assert forall|j: int| 0 <= j < early.subpaths.len() implies (
        #[trigger] early.subpaths[j]).is_prefix_of(late.subpaths[j]) by {
            assert(early.subpaths[j].is_prefix_of(middle.subpaths[j]));
            assert(middle.subpaths[j].is_prefix_of(late.subpaths[j]));
        }
    }
}

/// A curve never leaves a bare segment behind. The subpath into which a
/// curve is drawn holds, whatever else is drawn, more points than the curve
/// has parts, so with two parts or more it is no segment.
pub proof fn curve_is_no_segment(k: spec_fn(Op) -> u64, parts: u32, commands: Seq<Command>, i: int)
    requires
        parts >= 2,
        0 <= i < commands.len(),
        commands[i].is_curve(),
        run(k, parts, commands) is Some,
    ensures
        ({
            let state = run(k, parts, commands)->Some_0;
            let at = begun(commands.take(i + 1)) - 1;
            &&& 0 <= at < state.subpaths.len()
            &&& state.subpaths[at].len() > parts
            &&& kind_of(state.subpaths[at]) != Kind::Segment
        }),
{
    lemma_run_grows(k, parts, commands, i + 1);
    assert(commands.take(i + 1).drop_last() =~= commands.take(i));
    let before = run(k, parts, commands.take(i))->Some_0;
    let after = run(k, parts, commands.take(i + 1))->Some_0;
    lemma_run_shape(k, parts, commands.take(i));
    lemma_run_shape(k, parts, commands.take(i + 1));
    lemma_point_count(k, before.cursor, commands[i], parts);
    let at = begun(commands.take(i + 1)) - 1;
    assert(after.subpaths[at].len() > parts);
    assert(after.subpaths[at].is_prefix_of(run(k, parts, commands)->Some_0.subpaths[at]));
}

/// Closing a subpath adds its first point once more and takes the pen there.
/// The subpath is closed after that. It is a ring then if it had two points
/// or more, so a ring of three points or more stays one: the point added is
/// the one on which it ended.
pub proof fn closing_returns_to_the_start(
    k: spec_fn(Op) -> u64,
    parts: u32,
    commands: Seq<Command>,
    abs: bool,
)
    requires
        run(k, parts, commands) is Some,
        run(k, parts, commands)->Some_0.subpaths.len() > 0,
    ensures
        ({
            let before = run(k, parts, commands)->Some_0;
            let after = run(k, parts, commands.push(Command::ClosePath { abs }));
            let open = before.subpaths.last();
            &&& after is Some
            &&& after->Some_0.subpaths == before.subpaths.update(
                before.subpaths.len() - 1,
                open.push(open[0]),
            )
            &&& after->Some_0.cursor.current == Some(open[0])
            &&& is_closed(after->Some_0.subpaths.last())
            &&& open.len() >= 2 ==> kind_of(after->Some_0.subpaths.last()) == Kind::Ring
        }),
{
    let closing = Command::ClosePath { abs };
    let before = run(k, parts, commands)->Some_0;
    let open = before.subpaths.last();
    lemma_run_shape(k, parts, commands);
    assert(commands.push(closing).drop_last() =~= commands);
    assert(points_of(k, before.cursor, closing, parts) =~= seq![open[0]]);
    assert(open + seq![open[0]] =~= open.push(open[0]));
}

/// Path data that draws one open chain, and neither a segment nor a ring,
/// gives that chain where one geometry is asked for: the chain itself, not a
/// collection of one.
pub proof fn lone_chain_is_returned_bare(k: spec_fn(Op) -> u64, parts: u32, commands: Seq<Command>)
    requires
        path_subpaths(k, parts, commands) is Ok,
        chains_of(path_subpaths(k, parts, commands)->Ok_0).len() == 1,
        segments_of(path_subpaths(k, parts, commands)->Ok_0).len() == 0,
        rings_of(path_subpaths(k, parts, commands)->Ok_0).len() == 0,
    ensures
        path_geometry(k, parts, commands) == Ok::<GeometryView, SvgError>(
            GeometryView::LineString(chains_of(path_subpaths(k, parts, commands)->Ok_0)[0]),
        ),
{
    lone_chain_stays_bare(path_subpaths(k, parts, commands)->Ok_0);
}

} // verus!
