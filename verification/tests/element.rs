use geo_svg_io::geo_svg_reader::element_source;
use geo_svg_io::geo_svg_reader::events_to_source;
use geo_svg_io::geo_svg_reader::svg_to_source;
use geo_svg_io::geo_svg_reader::Attribute;
use geo_svg_io::geo_svg_reader::Element;
use geo_svg_io::geo_svg_reader::Source;
use geo_svg_io::geo_svg_reader::SvgError;
use geo_svg_io::geo_svg_reader::SvgUnsupportedGeometryTypeError;

fn attribute(name: &str, value: &str) -> Attribute {
    Attribute { name: String::from(name), value: String::from(value) }
}

fn element(name: &str, attributes: &[(&str, &str)]) -> Element {
    Element {
        name: String::from(name),
        attributes: attributes.iter().map(|(name, value)| attribute(name, value)).collect(),
    }
}

fn unsupported() -> Result<Source, SvgError> {
    Err(SvgError::SvgInvalidType(SvgUnsupportedGeometryTypeError))
}

#[test]
fn an_element_of_another_kind_is_not_supported() {
    assert_eq!(svg_to_source(r#"<ellipse cx="1" cy="2" rx="3" ry="4"/>"#), unsupported());
    assert_eq!(svg_to_source(r#"<circle r="3"/>"#), unsupported());
    assert_eq!(svg_to_source(r#"<svg><g><text>path</text></g></svg>"#), unsupported());
}

#[test]
fn markup_without_an_element_is_not_supported() {
    assert_eq!(svg_to_source(""), unsupported());
    assert_eq!(svg_to_source("M0 0L1 1"), unsupported());
    assert_eq!(svg_to_source("<<<"), unsupported());
}

#[test]
fn the_data_of_a_path_is_found() {
    assert_eq!(
        svg_to_source(r#"<path d="M0 0L0 60L60 60L60 0L0 0"/>"#),
        Ok(Source::Path(String::from("M0 0L0 60L60 60L60 0L0 0")))
    );
    assert_eq!(
        svg_to_source(r#"<path fill="none" d="M1 1" stroke="red"></path>"#),
        Ok(Source::Path(String::from("M1 1")))
    );
    assert_eq!(svg_to_source(r#"<path d=""/>"#), Ok(Source::Path(String::new())));
}

#[test]
fn the_points_of_a_polygon_and_of_a_polyline_are_found() {
    assert_eq!(
        svg_to_source(r#"<polygon points="0, 0 60, 0 60, 60 0, 60 0, 0"/>"#),
        Ok(Source::Polygon(String::from("0, 0 60, 0 60, 60 0, 60 0, 0")))
    );
    assert_eq!(
        svg_to_source(r#"<polyline points="0, 0 0, 60 60, 60 60, 0"/>"#),
        Ok(Source::Polyline(String::from("0, 0 0, 60 60, 60 60, 0")))
    );
}

#[test]
fn the_numbers_of_a_rect_are_kept_in_their_order() {
    assert_eq!(
        svg_to_source(r#"<rect height="4" fill="red" x="1" width="3" id="x" y="2"/>"#),
        Ok(Source::Rect(vec![
            attribute("height", "4"),
            attribute("x", "1"),
            attribute("width", "3"),
            attribute("y", "2"),
        ]))
    );
    assert_eq!(svg_to_source("<rect/>"), Ok(Source::Rect(vec![])));
    assert_eq!(
        svg_to_source(r#"<rect x1="1" x="abc"/>"#),
        Ok(Source::Rect(vec![attribute("x", "abc")]))
    );
}

#[test]
fn the_numbers_of_a_line_are_kept_in_their_order() {
    assert_eq!(
        svg_to_source(r#"<line y2="4" x1="1" stroke="black" x2="3" x="9" y1="2"/>"#),
        Ok(Source::Line(vec![
            attribute("y2", "4"),
            attribute("x1", "1"),
            attribute("x2", "3"),
            attribute("y1", "2"),
        ]))
    );
}

#[test]
fn the_first_element_that_can_be_used_decides() {
    let text = r#"<svg xmlns="http://www.w3.org/2000/svg"><g><title>t</title><path fill="red"/><polygon id="p"/><polyline points="1,2"/><path d="M0 0"/></g></svg>"#;
    assert_eq!(svg_to_source(text), Ok(Source::Polyline(String::from("1,2"))));
    let text = r#"<g><rect/><path d="M0 0"/></g>"#;
    assert_eq!(svg_to_source(text), Ok(Source::Rect(vec![])));
    let text = r#"<g><line x1="1"/><path d="M0 0"/></g>"#;
    assert_eq!(svg_to_source(text), Ok(Source::Line(vec![attribute("x1", "1")])));
}

#[test]
fn names_are_taken_without_their_prefix() {
    let text = r#"<s:path xmlns:s="http://www.w3.org/2000/svg" s:d="M1 1"/>"#;
    assert_eq!(svg_to_source(text), Ok(Source::Path(String::from("M1 1"))));
}

#[test]
fn nothing_is_read_after_a_fault_in_the_markup() {
    assert_eq!(svg_to_source(r#"<a></b><path d="M0 0"/>"#), unsupported());
    assert_eq!(
        svg_to_source(r#"<a><path d="M0 0"/></b>"#),
        Ok(Source::Path(String::from("M0 0")))
    );
}

#[test]
fn the_first_attribute_of_a_name_is_the_one_that_counts() {
    let path = element("path", &[("id", "a"), ("d", "M1 1"), ("d", "M2 2")]);
    assert_eq!(element_source(&path), Some(Source::Path(String::from("M1 1"))));
    let polygon = element("polygon", &[("d", "M1 1"), ("points", "1,1")]);
    assert_eq!(element_source(&polygon), Some(Source::Polygon(String::from("1,1"))));
    assert_eq!(element_source(&element("polygon", &[("d", "M1 1")])), None);
    assert_eq!(element_source(&element("polyline", &[])), None);
    assert_eq!(element_source(&element("path", &[("D", "M1 1")])), None);
    assert_eq!(element_source(&element("Path", &[("d", "M1 1")])), None);
    assert_eq!(element_source(&element("", &[("d", "M1 1")])), None);
}

#[test]
fn events_that_open_no_element_are_passed_over() {
    let events = vec![
        None,
        Some(element("svg", &[("width", "10")])),
        None,
        Some(element("path", &[])),
        Some(element("line", &[("x1", "1"), ("d", "M0 0"), ("y2", "2")])),
        Some(element("path", &[("d", "M0 0")])),
    ];
    assert_eq!(
        events_to_source(&events),
        Ok(Source::Line(vec![attribute("x1", "1"), attribute("y2", "2")]))
    );
    assert_eq!(events_to_source(&vec![]), unsupported());
    assert_eq!(events_to_source(&vec![None, None]), unsupported());
    assert_eq!(events_to_source(&vec![Some(element("path", &[]))]), unsupported());
}
