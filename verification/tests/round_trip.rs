use flo_curves::bezier::de_casteljau3;
use flo_curves::bezier::de_casteljau4;
use geo_svg_io::arith::Op;
use geo_svg_io::geo_svg_reader::Command;
use geo_svg_io::geo_svg_reader::InvalidSvgError;
use geo_svg_io::geo_svg_reader::Source;
use geo_svg_io::geo_svg_reader::SvgError;
use geo_svg_io::geo_svg_reader::svg_to_source;
use geo_svg_io::geo_svg_writer::Piece;
use geo_svg_io::geo_svg_writer::ToSvg;
use geo_svg_io::geo_svg_writer::ToSvgString;
use geo_svg_io::geometry::Coordinate;
use geo_svg_io::geometry::Geometry;
use geo_svg_io::geometry::GeometryCollection;
use geo_svg_io::geometry::Line;
use geo_svg_io::geometry::LineString;
use geo_svg_io::geometry::Polygon;
use std::num::ParseFloatError;
use svgtypes::PathParser;
use svgtypes::PathSegment;
use svgtypes::PointsParser;

fn arith(op: Op) -> u64 {
    let value = match op {
        Op::Sum(a, b) => f64::from_bits(a) + f64::from_bits(b),
        Op::Difference(a, b) => f64::from_bits(a) - f64::from_bits(b),
        Op::Ratio(i, n) => f64::from(i) / f64::from(n),
        Op::Quadratic { t, w1, w2, w3 } => de_casteljau3(
            f64::from_bits(t),
            f64::from_bits(w1),
            f64::from_bits(w2),
            f64::from_bits(w3),
        ),
        Op::Cubic { t, w1, w2, w3, w4 } => de_casteljau4(
            f64::from_bits(t),
            f64::from_bits(w1),
            f64::from_bits(w2),
            f64::from_bits(w3),
            f64::from_bits(w4),
        ),
    };
    value.to_bits()
}

fn command(segment: PathSegment) -> Command {
    match segment {
        PathSegment::MoveTo { abs, x, y } => Command::MoveTo { abs, x: x.to_bits(), y: y.to_bits() },
        PathSegment::LineTo { abs, x, y } => Command::LineTo { abs, x: x.to_bits(), y: y.to_bits() },
        PathSegment::HorizontalLineTo { abs, x } => {
            Command::HorizontalLineTo { abs, x: x.to_bits() }
        }
        PathSegment::VerticalLineTo { abs, y } => Command::VerticalLineTo { abs, y: y.to_bits() },
        PathSegment::CurveTo { abs, x1, y1, x2, y2, x, y } => Command::CurveTo {
            abs,
            x1: x1.to_bits(),
            y1: y1.to_bits(),
            x2: x2.to_bits(),
            y2: y2.to_bits(),
            x: x.to_bits(),
            y: y.to_bits(),
        },
        PathSegment::SmoothCurveTo { abs, x2, y2, x, y } => Command::SmoothCurveTo {
            abs,
            x2: x2.to_bits(),
            y2: y2.to_bits(),
            x: x.to_bits(),
            y: y.to_bits(),
        },
        PathSegment::Quadratic { abs, x1, y1, x, y } => Command::Quadratic {
            abs,
            x1: x1.to_bits(),
            y1: y1.to_bits(),
            x: x.to_bits(),
            y: y.to_bits(),
        },
        PathSegment::SmoothQuadratic { abs, x, y } => {
            Command::SmoothQuadratic { abs, x: x.to_bits(), y: y.to_bits() }
        }
        PathSegment::EllipticalArc { abs, rx, ry, x_axis_rotation, large_arc, sweep, x, y } => {
            Command::EllipticalArc {
                abs,
                rx: rx.to_bits(),
                ry: ry.to_bits(),
                x_axis_rotation: x_axis_rotation.to_bits(),
                large_arc,
                sweep,
                x: x.to_bits(),
                y: y.to_bits(),
            }
        }
        PathSegment::ClosePath { abs } => Command::ClosePath { abs },
    }
}

fn number(text: &str) -> Result<u64, ParseFloatError> {
    text.parse::<f64>().map(f64::to_bits)
}

fn cut(d: &str) -> Result<Vec<Command>, SvgError> {
    let mut found = Vec::new();
    for token in PathParser::from(d) {
        match token {
            Ok(segment) => found.push(command(segment)),
            Err(svgtypes::Error::InvalidNumber(_)) => return Err(SvgError::from(number("").unwrap_err())),
            Err(_) => return Err(SvgError::InvalidSvgError(InvalidSvgError)),
        }
    }
    Ok(found)
}

fn commands(d: &str) -> Vec<Command> {
    cut(d).ok().unwrap()
}

fn points(text: &str) -> Vec<Coordinate> {
    PointsParser::from(text).map(|(x, y)| Coordinate { x: x.to_bits(), y: y.to_bits() }).collect()
}

fn svg_to_geometry(svg: &str) -> Result<Geometry, SvgError> {
    geo_svg_io::geo_svg_reader::svg_to_geometry(svg, &cut, &points, &number, &arith)
}

fn svg_d_path_to_geometry_collection(d: &str) -> Result<GeometryCollection, SvgError> {
    geo_svg_io::geo_svg_reader::svg_d_path_to_geometry_collection(d, &cut, &arith)
}

fn show(bits: u64) -> String {
    f64::from_bits(bits).to_string()
}

fn render(pieces: &Vec<Piece>) -> String {
    geo_svg_io::geo_svg_writer::render(pieces, &show, &arith)
}

fn chain(points: &[(f64, f64)]) -> LineString {
    LineString(points.iter().map(|(x, y)| Coordinate { x: x.to_bits(), y: y.to_bits() }).collect())
}

fn again(polygon: &Polygon) -> GeometryCollection {
    svg_d_path_to_geometry_collection(&render(&polygon.to_svg_string())).ok().unwrap()
}

#[test]
fn a_polygon_without_holes_is_read_as_it_was_written() {
    let rings: Vec<Vec<(f64, f64)>> = vec![
        vec![(0.0, 0.0), (0.0, 60.0), (60.0, 60.0), (60.0, 0.0), (0.0, 0.0)],
        vec![(1.5, -2.25), (1e-7, 3.0e20), (0.1, 0.2), (1.5, -2.25)],
        vec![(0.1, 0.30000000000000004), (-7.0, 1.0), (0.1, 0.30000000000000004)],
        vec![(5.0, 6.0)],
        vec![(1.0, 1.0), (2.0, 2.0), (3.0, 1.0)],
    ];
    for ring in rings {
        let polygon = Polygon::new(chain(&ring), vec![]);
        let read = again(&polygon);
        assert_eq!(read, GeometryCollection(vec![Geometry::Polygon(polygon.clone())]));
        let text = render(&polygon.to_svg_string());
        assert_eq!(render(&read.to_svg_string()), text);
        assert_eq!(render(&read.to_svg()), render(&polygon.to_svg()));
        let shape = svg_to_geometry(&render(&polygon.to_svg())).ok().unwrap();
        assert_eq!(shape, Geometry::Polygon(polygon));
    }
}

#[test]
fn the_element_of_a_polygon_holds_its_path_data() {
    let polygon = Polygon::new(chain(&[(1.0, 1.0), (4.0, 1.0), (4.0, 4.0)]), vec![]);
    let element = render(&polygon.to_svg());
    assert_eq!(svg_to_source(&element), Ok(Source::Path(render(&polygon.to_svg_string()))));
    assert_eq!(
        commands(&render(&polygon.to_svg_string())),
        vec![
            Command::MoveTo { abs: true, x: 1.0_f64.to_bits(), y: 1.0_f64.to_bits() },
            Command::LineTo { abs: true, x: 4.0_f64.to_bits(), y: 1.0_f64.to_bits() },
            Command::LineTo { abs: true, x: 4.0_f64.to_bits(), y: 4.0_f64.to_bits() },
            Command::LineTo { abs: true, x: 1.0_f64.to_bits(), y: 1.0_f64.to_bits() },
        ]
    );
}

#[test]
fn the_holes_of_a_polygon_are_not_read_back() {
    let outer = [(0.0, 0.0), (0.0, 60.0), (60.0, 60.0), (60.0, 0.0), (0.0, 0.0)];
    let inner = [(10.0, 10.0), (40.0, 1.0), (40.0, 40.0), (10.5, 40.0), (10.0, 10.0)];
    let polygon = Polygon::new(chain(&outer), vec![chain(&inner)]);
    let read = again(&polygon);
    assert_eq!(read, GeometryCollection(vec![Geometry::Polygon(Polygon::new(chain(&outer), vec![]))]));
}

#[test]
fn a_ring_of_two_points_is_read_as_a_segment() {
    let polygon = Polygon::new(chain(&[(5.0, 6.0), (5.0, 6.0)]), vec![]);
    let ends = Coordinate { x: 5.0_f64.to_bits(), y: 6.0_f64.to_bits() };
    assert_eq!(again(&polygon), GeometryCollection(vec![Geometry::Line(Line::new(ends, ends))]));
}

#[test]
fn chains_and_segments_are_read_as_they_were_written() {
    let open = chain(&[(1.0, 2.0), (3.0, 4.5), (-5.0, 6.0)]);
    let read = svg_d_path_to_geometry_collection(&render(&open.to_svg_string())).ok().unwrap();
    assert_eq!(read, GeometryCollection(vec![Geometry::LineString(open.clone())]));
    let element = svg_to_geometry(&render(&open.to_svg())).ok().unwrap();
    assert_eq!(element, Geometry::LineString(open));
    let line = Line::new(
        Coordinate { x: 1.0_f64.to_bits(), y: 2.0_f64.to_bits() },
        Coordinate { x: 3.0_f64.to_bits(), y: 4.0_f64.to_bits() },
    );
    let read = svg_d_path_to_geometry_collection(&render(&line.to_svg_string())).ok().unwrap();
    assert_eq!(read, GeometryCollection(vec![Geometry::Line(line)]));
    let element = svg_to_geometry(&render(&line.to_svg()));
    assert_eq!(element, Ok(Geometry::Line(line)));
}
