//! Path commands, and what each one does to the pen.
//!
//! A command gives the pen a new place and adds points to the subpath that is
//! being drawn: a line one point, a curve the samples inside it and its end,
//! a close the first point of the subpath. A move begins a subpath and makes
//! the pen forget the last control point. An arc is not drawn: after it the
//! pen has no place and no control point, and distances are measured from
//! zero, but the subpath stays open.

use super::flatten::cubic_samples;
use super::flatten::flatten_cubic;
use super::flatten::flatten_quadratic;
use super::flatten::inner_count;
use super::flatten::quadratic_samples;
use crate::arith::computes;
use crate::arith::total;
use crate::arith::Op;
use crate::arith::ZERO;
use crate::geometry::Coordinate;
use vstd::prelude::*;

verus! {

/// One command of path data. With `abs` its numbers are positions; without,
/// they are distances from the point where the pen is.
#[derive(Clone, Copy, Debug, PartialEq, Eq, Structural)]
pub enum Command {
    MoveTo { abs: bool, x: u64, y: u64 },
    LineTo { abs: bool, x: u64, y: u64 },
    HorizontalLineTo { abs: bool, x: u64 },
    VerticalLineTo { abs: bool, y: u64 },
    CurveTo { abs: bool, x1: u64, y1: u64, x2: u64, y2: u64, x: u64, y: u64 },
    SmoothCurveTo { abs: bool, x2: u64, y2: u64, x: u64, y: u64 },
    Quadratic { abs: bool, x1: u64, y1: u64, x: u64, y: u64 },
    SmoothQuadratic { abs: bool, x: u64, y: u64 },
    /// An arc of an ellipse. It is not drawn: the pen loses its place.
    EllipticalArc {
        abs: bool,
        rx: u64,
        ry: u64,
        x_axis_rotation: u64,
        large_arc: bool,
        sweep: bool,
        x: u64,
        y: u64,
    },
    ClosePath { abs: bool },
}

/// Where the pen is, and what it remembers.
#[derive(Clone, Copy, Debug, PartialEq, Eq, Structural)]
pub struct Cursor {
    /// The point reached by the last command, unless the place was lost.
    pub current: Option<Coordinate>,
    /// The first point of the subpath that is being drawn, if one is.
    pub start: Option<Coordinate>,
    /// The last control point of the last curve, unless a move or an arc
    /// came after it.
    pub control: Option<Coordinate>,
}

impl Command {
    /// Whether the command begins a subpath.
    pub open spec fn opens(self) -> bool {
        self is MoveTo
    }

    /// Whether the command adds points to the subpath that is being drawn.
    pub open spec fn draws(self) -> bool {
        !(self is MoveTo) && !(self is EllipticalArc)
    }

    /// Whether the command is a curve.
    pub open spec fn is_curve(self) -> bool {
        self is CurveTo || self is SmoothCurveTo || self is Quadratic || self is SmoothQuadratic
    }

    /// Whether the command begins a subpath.
    pub fn begins_subpath(&self) -> (begins: bool)
        ensures
            begins == self.opens(),
    {
        match self {
            Command::MoveTo { .. } => true,
            _ => false,
        }
    }

    /// Whether the command adds points to the subpath that is being drawn.
    pub fn draws_points(&self) -> (draws: bool)
        ensures
            draws == self.draws(),
    {
        match self {
            Command::MoveTo { .. } | Command::EllipticalArc { .. } => false,
            _ => true,
        }
    }
}

/// The point from which distances are measured while the pen has no place.
pub open spec fn origin() -> Coordinate {
    Coordinate { x: ZERO, y: ZERO }
}

impl Cursor {
    /// The pen before the first command.
    pub open spec fn initial() -> Cursor {
        Cursor { current: None, start: None, control: None }
    }

    /// The point from which the next command measures its distances.
    pub open spec fn base(self) -> Coordinate {
        match self.current {
            Some(point) => point,
            None => origin(),
        }
    }

    /// The point that a smooth curve mirrors: the control point of the curve
    /// before it, and where there is none, the pen's own place.
    pub open spec fn handle(self) -> Coordinate {
        match self.control {
            Some(point) => point,
            None => self.base(),
        }
    }

    pub fn new() -> (cursor: Cursor)
        ensures
            cursor == Cursor::initial(),
    {
        Cursor { current: None, start: None, control: None }
    }
}

/// One number of a command as a position: itself, or `from` plus it.
pub open spec fn placed(k: spec_fn(Op) -> u64, abs: bool, from: u64, number: u64) -> u64 {
    if abs {
        number
    } else {
        k(Op::Sum(from, number))
    }
}

/// Two numbers of a command as a point.
pub open spec fn svg_coord2(
    k: spec_fn(Op) -> u64,
    x: u64,
    y: u64,
    last: Coordinate,
    abs: bool,
) -> Coordinate {
    Coordinate { x: placed(k, abs, last.x, x), y: placed(k, abs, last.y, y) }
}

/// `of` mirrored through `center` on one axis: `center` less the way from
/// `center` to `of`, which in exact numbers is twice `center` less `of`.
pub open spec fn mirrored(k: spec_fn(Op) -> u64, center: u64, of: u64) -> u64 {
    k(Op::Difference(center, k(Op::Difference(of, center))))
}

/// `of` mirrored through `center`.
pub open spec fn reflected(k: spec_fn(Op) -> u64, center: Coordinate, of: Coordinate) -> Coordinate {
    Coordinate { x: mirrored(k, center.x, of.x), y: mirrored(k, center.y, of.y) }
}

/// The first control point of a curve, for the curves that are given one.
pub open spec fn first_control(k: spec_fn(Op) -> u64, cursor: Cursor, command: Command) -> Coordinate {
    match command {
        Command::CurveTo { abs, x1, y1, .. } => svg_coord2(k, x1, y1, cursor.base(), abs),
        Command::Quadratic { abs, x1, y1, .. } => svg_coord2(k, x1, y1, cursor.base(), abs),
        _ => reflected(k, cursor.base(), cursor.handle()),
    }
}

/// The point on which the command ends, for the commands that name one.
pub open spec fn end_point(k: spec_fn(Op) -> u64, cursor: Cursor, command: Command) -> Coordinate {
    let last = cursor.base();
    match command {
        Command::MoveTo { abs, x, y } => svg_coord2(k, x, y, last, abs),
        Command::LineTo { abs, x, y } => svg_coord2(k, x, y, last, abs),
        Command::HorizontalLineTo { abs, x } => Coordinate {
            x: placed(k, abs, last.x, x),
            y: last.y,
        },
        Command::VerticalLineTo { abs, y } => Coordinate {
            x: last.x,
            y: placed(k, abs, last.y, y),
        },
        Command::CurveTo { abs, x, y, .. } => svg_coord2(k, x, y, last, abs),
        Command::SmoothCurveTo { abs, x, y, .. } => svg_coord2(k, x, y, last, abs),
        Command::Quadratic { abs, x, y, .. } => svg_coord2(k, x, y, last, abs),
        Command::SmoothQuadratic { abs, x, y } => svg_coord2(k, x, y, last, abs),
        Command::EllipticalArc { .. } => last,
        Command::ClosePath { .. } => match cursor.start {
            Some(start) => start,
            None => last,
        },
    }
}

/// The control point that the command leaves behind for a smooth curve after
/// it: of a cubic curve the second, of a quadratic curve the only one.
pub open spec fn last_control(k: spec_fn(Op) -> u64, cursor: Cursor, command: Command) -> Coordinate {
    match command {
        Command::CurveTo { abs, x2, y2, .. } => svg_coord2(k, x2, y2, cursor.base(), abs),
        Command::SmoothCurveTo { abs, x2, y2, .. } => svg_coord2(k, x2, y2, cursor.base(), abs),
        _ => first_control(k, cursor, command),
    }
}

/// The points that the command adds to its subpath, with each curve cut in
/// `parts`: for a curve the samples inside it and then its end.
pub open spec fn points_of(
    k: spec_fn(Op) -> u64,
    cursor: Cursor,
    command: Command,
    parts: u32,
) -> Seq<Coordinate> {
    let end = end_point(k, cursor, command);
    match command {
        Command::CurveTo { .. } | Command::SmoothCurveTo { .. } => cubic_samples(
            k,
            parts,
            cursor.base(),
            first_control(k, cursor, command),
            last_control(k, cursor, command),
            end,
        ).push(end),
        Command::Quadratic { .. } | Command::SmoothQuadratic { .. } => quadratic_samples(
            k,
            parts,
            cursor.base(),
            first_control(k, cursor, command),
            end,
        ).push(end),
        Command::EllipticalArc { .. } => Seq::empty(),
        Command::ClosePath { .. } => if cursor.start is Some {
            seq![end]
        } else {
            Seq::empty()
        },
        _ => seq![end],
    }
}

/// The pen after the command. Only a move begins a subpath, and with it the
/// pen forgets the control point; only a curve sets one.
pub open spec fn cursor_after(k: spec_fn(Op) -> u64, cursor: Cursor, command: Command) -> Cursor {
    let end = end_point(k, cursor, command);
    match command {
        Command::MoveTo { .. } => Cursor { current: Some(end), start: Some(end), control: None },
        Command::EllipticalArc { .. } => Cursor { current: None, start: cursor.start, control: None },
        Command::ClosePath { .. } => if cursor.start is Some {
            Cursor { current: Some(end), ..cursor }
        } else {
            cursor
        },
        Command::LineTo { .. }
        | Command::HorizontalLineTo { .. }
        | Command::VerticalLineTo { .. } => Cursor { current: Some(end), ..cursor },
        _ => Cursor {
            current: Some(end),
            start: cursor.start,
            control: Some(last_control(k, cursor, command)),
        },
    }
}

/// How many points the command adds to its subpath. It depends on no number.
pub open spec fn point_count(cursor: Cursor, command: Command, parts: u32) -> nat {
    if command.is_curve() {
        inner_count(parts) + 1
    } else if command is EllipticalArc || (command is ClosePath && cursor.start is None) {
        0
    } else {
        1
    }
}

/// The points of a command are as many as its kind says, whatever the
/// numbers: of a curve, the samples inside it and its end.
pub proof fn lemma_point_count(k: spec_fn(Op) -> u64, cursor: Cursor, command: Command, parts: u32)
    ensures
        points_of(k, cursor, command, parts).len() == point_count(cursor, command, parts),
        command.is_curve() && parts >= 1 ==> points_of(k, cursor, command, parts).len() == parts,
{
}

/// One number of a command as a position.
pub fn place<A: Fn(Op) -> u64>(abs: bool, from: u64, number: u64, arith: &A) -> (position: u64)
    requires
        total(*arith),
    ensures
        abs ==> position == number,
        forall|k: spec_fn(Op) -> u64| #[trigger]
            computes(*arith, k) ==> position == placed(k, abs, from, number),
{
    if abs {
        number
    } else {
        arith(Op::Sum(from, number))
    }
}

/// Two numbers of a command as a point: themselves, or `last` moved by them.
pub fn calculate_svg_coord2<A: Fn(Op) -> u64>(
    x: u64,
    y: u64,
    last: Coordinate,
    abs: bool,
    arith: &A,
) -> (point: Coordinate)
    requires
        total(*arith),
    ensures
        abs ==> point == (Coordinate { x, y }),
        forall|k: spec_fn(Op) -> u64| #[trigger]
            computes(*arith, k) ==> point == svg_coord2(k, x, y, last, abs),
{
    Coordinate { x: place(abs, last.x, x, arith), y: place(abs, last.y, y, arith) }
}

/// `pr` mirrored through `orig`.
pub fn reflect_point<A: Fn(Op) -> u64>(orig: Coordinate, pr: Coordinate, arith: &A) -> (point:
    Coordinate)
    requires
        total(*arith),
    ensures
        forall|k: spec_fn(Op) -> u64| #[trigger]
            computes(*arith, k) ==> point == reflected(k, orig, pr),
{
    let x_step = arith(Op::Difference(pr.x, orig.x));
    let y_step = arith(Op::Difference(pr.y, orig.y));
    Coordinate {
        x: arith(Op::Difference(orig.x, x_step)),
        y: arith(Op::Difference(orig.y, y_step)),
    }
}

/// Carries out one command: the pen after it, and the points that it adds to
/// its subpath, each curve cut in `parts`. How many points these are, and
/// whether the pen knows the start of a subpath, does not depend on the
/// arithmetic.
pub fn apply<A: Fn(Op) -> u64>(cursor: Cursor, command: &Command, parts: u32, arith: &A) -> (next: (
    Cursor,
    Vec<Coordinate>,
))
    requires
        total(*arith),
    ensures
        next.1@.len() == point_count(cursor, *command, parts),
        next.0.start == (if command.opens() {
            next.0.current
        } else {
            cursor.start
        }),
        command.opens() ==> next.0.current is Some && next.1@[0] == next.0.current->Some_0,
        forall|k: spec_fn(Op) -> u64| #[trigger]
            computes(*arith, k) ==> next.0 == cursor_after(k, cursor, *command) && next.1@
                == points_of(k, cursor, *command, parts),
{
    let last = match cursor.current {
        Some(point) => point,
        None => Coordinate { x: ZERO, y: ZERO },
    };
    let handle = match cursor.control {
        Some(point) => point,
        None => last,
    };
    let mut points: Vec<Coordinate> = Vec::new();
    match *command {
        Command::MoveTo { abs, x, y } => {
            let end = calculate_svg_coord2(x, y, last, abs, arith);
            points.push(end);
            (Cursor { current: Some(end), start: Some(end), control: None }, points)
        },
        Command::LineTo { abs, x, y } => {
            let end = calculate_svg_coord2(x, y, last, abs, arith);
            points.push(end);
            (Cursor { current: Some(end), start: cursor.start, control: cursor.control }, points)
        },
        Command::HorizontalLineTo { abs, x } => {
            let end = Coordinate { x: place(abs, last.x, x, arith), y: last.y };
            points.push(end);
            (Cursor { current: Some(end), start: cursor.start, control: cursor.control }, points)
        },
        Command::VerticalLineTo { abs, y } => {
            let end = Coordinate { x: last.x, y: place(abs, last.y, y, arith) };
            points.push(end);
            (Cursor { current: Some(end), start: cursor.start, control: cursor.control }, points)
        },
        Command::CurveTo { abs, x1, y1, x2, y2, x, y } => {
            let control_1 = calculate_svg_coord2(x1, y1, last, abs, arith);
            let control_2 = calculate_svg_coord2(x2, y2, last, abs, arith);
            let end = calculate_svg_coord2(x, y, last, abs, arith);
            let mut samples = flatten_cubic(last, control_1, control_2, end, parts, arith);
            samples.push(end);
            (Cursor { current: Some(end), start: cursor.start, control: Some(control_2) }, samples)
        },
        Command::SmoothCurveTo { abs, x2, y2, x, y } => {
            let control_1 = reflect_point(last, handle, arith);
            let control_2 = calculate_svg_coord2(x2, y2, last, abs, arith);
            let end = calculate_svg_coord2(x, y, last, abs, arith);
            let mut samples = flatten_cubic(last, control_1, control_2, end, parts, arith);
            samples.push(end);
            (Cursor { current: Some(end), start: cursor.start, control: Some(control_2) }, samples)
        },
        Command::Quadratic { abs, x1, y1, x, y } => {
            let control = calculate_svg_coord2(x1, y1, last, abs, arith);
            let end = calculate_svg_coord2(x, y, last, abs, arith);
            let mut samples = flatten_quadratic(last, control, end, parts, arith);
            samples.push(end);
            (Cursor { current: Some(end), start: cursor.start, control: Some(control) }, samples)
        },
        Command::SmoothQuadratic { abs, x, y } => {
            let control = reflect_point(last, handle, arith);
            let end = calculate_svg_coord2(x, y, last, abs, arith);
            let mut samples = flatten_quadratic(last, control, end, parts, arith);
            samples.push(end);
            (Cursor { current: Some(end), start: cursor.start, control: Some(control) }, samples)
        },
        Command::EllipticalArc { .. } => {
            (Cursor { current: None, start: cursor.start, control: None }, points)
        },
        Command::ClosePath { .. } => {
            match cursor.start {
                Some(start) => {
                    points.push(start);
                    (
                        Cursor { current: Some(start), start: cursor.start, control: cursor.control },
                        points,
                    )
                },
                None => (cursor, points),
            }
        },
    }
}

} // verus!
