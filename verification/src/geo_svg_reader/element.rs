//! From markup to the texts that describe a shape.
//!
//! The first element that can be used decides: a `path` with its `d`, a
//! `polygon` or a `polyline` with its `points`, a `rect` or a `line` with
//! whatever it has of its four numbers. Elements of other names, and a `path`,
//! `polygon` or `polyline` without its text, are passed over.

use super::error::SvgError;
use super::error::SvgUnsupportedGeometryTypeError;
use vstd::prelude::*;
use xml::reader::EventReader;
use xml::reader::XmlEvent;

verus! {

/// One attribute of an element: its name without prefix, and its value.
#[derive(Clone, Debug, PartialEq, Eq)]
pub struct Attribute {
    pub name: String,
    pub value: String,
}

/// An opening tag: its name without prefix, and its attributes in the order
/// in which they are written.
#[derive(Clone, Debug, PartialEq, Eq)]
pub struct Element {
    pub name: String,
    pub attributes: Vec<Attribute>,
}

/// The texts that describe a shape, as an element holds them.
#[derive(Clone, Debug, PartialEq, Eq)]
pub enum Source {
    /// The path data of a `path`.
    Path(String),
    /// The points of a `polygon`.
    Polygon(String),
    /// The points of a `polyline`.
    Polyline(String),
    /// Those attributes of a `rect` that are named `x`, `y`, `width` or
    /// `height`, in their order.
    Rect(Vec<Attribute>),
    /// Those attributes of a `line` that are named `x1`, `y1`, `x2` or `y2`,
    /// in their order.
    Line(Vec<Attribute>),
}

/// What a [`Source`] holds.
pub ghost enum SourceView {
    Path(Seq<char>),
    Polygon(Seq<char>),
    Polyline(Seq<char>),
    Rect(Seq<(Seq<char>, Seq<char>)>),
    Line(Seq<(Seq<char>, Seq<char>)>),
}

impl View for Attribute {
    type V = (Seq<char>, Seq<char>);

    open spec fn view(&self) -> (Seq<char>, Seq<char>) {
        (self.name@, self.value@)
    }
}

/// What each attribute holds.
pub open spec fn attributes_view(attributes: Seq<Attribute>) -> Seq<(Seq<char>, Seq<char>)> {
    attributes.map_values(|attribute: Attribute| attribute@)
}

impl View for Element {
    type V = (Seq<char>, Seq<(Seq<char>, Seq<char>)>);

    open spec fn view(&self) -> (Seq<char>, Seq<(Seq<char>, Seq<char>)>) {
        (self.name@, attributes_view(self.attributes@))
    }
}

impl View for Source {
    type V = SourceView;

    open spec fn view(&self) -> SourceView {
        match *self {
            Source::Path(text) => SourceView::Path(text@),
            Source::Polygon(text) => SourceView::Polygon(text@),
            Source::Polyline(text) => SourceView::Polyline(text@),
            Source::Rect(attributes) => SourceView::Rect(attributes_view(attributes@)),
            Source::Line(attributes) => SourceView::Line(attributes_view(attributes@)),
        }
    }
}

/// What each event holds: an opening tag, or nothing for any other event.
pub open spec fn events_view(events: Seq<Option<Element>>) -> Seq<
    Option<(Seq<char>, Seq<(Seq<char>, Seq<char>)>)>,
> {
    events.map_values(
        |event: Option<Element>|
            match event {
                Some(element) => Some(element@),
                None => None,
            },
    )
}

/// The events that `xml::reader::EventReader` finds in a text, in their
/// order, up to the end of the document or the first fault, which is the last
/// event then. An opening tag is given by its name and its attributes, both
/// without prefix; of any other event, and of a fault, nothing is kept.
pub uninterp spec fn markup(text: Seq<char>) -> Seq<Option<(Seq<char>, Seq<(Seq<char>, Seq<char>)>)>>;

/// Reads markup with `xml::reader::EventReader`: `new` on the bytes of the
/// text, then every event that its iterator hands out, which ends after the
/// end of the document or after the first fault. An opening tag is kept with
/// the local names of the element and of its attributes and with their
/// values; of any other event nothing is kept. Not proved, and claimed of
/// that reader: one text always gives the same events, those that [`markup`]
/// names.
#[verifier::external_body]
fn read_events(svg: &str) -> (events: Vec<Option<Element>>)
    ensures
        events_view(events@) == markup(svg@),
{
    EventReader::new(svg.as_bytes()).into_iter().map(|event| match event {
        Ok(XmlEvent::StartElement { name, attributes, .. }) => Some(Element {
            name: name.local_name,
            attributes: attributes.into_iter().map(|a| Attribute {
                name: a.name.local_name,
                value: a.value,
            }).collect(),
        }),
        _ => None,
    }).collect()
}

/// The value of the first attribute of this name.
pub open spec fn value_of(attributes: Seq<(Seq<char>, Seq<char>)>, name: Seq<char>) -> Option<
    Seq<char>,
>
    decreases attributes.len(),
{
    if attributes.len() == 0 {
        None
    } else if attributes.first().0 == name {
        Some(attributes.first().1)
    } else {
        value_of(attributes.drop_first(), name)
    }
}

/// The test for an attribute with one of four names.
pub open spec fn one_of(a: Seq<char>, b: Seq<char>, c: Seq<char>, d: Seq<char>) -> spec_fn(
    (Seq<char>, Seq<char>),
) -> bool {
    |attribute: (Seq<char>, Seq<char>)|
        attribute.0 == a || attribute.0 == b || attribute.0 == c || attribute.0 == d
}

/// The texts that an element holds of a shape, if it is of a kind that can
/// be used and has them.
pub open spec fn source_of(element: (Seq<char>, Seq<(Seq<char>, Seq<char>)>)) -> Option<
    SourceView,
> {
    let (name, attributes) = element;
    if name == "path"@ {
        match value_of(attributes, "d"@) {
            Some(text) => Some(SourceView::Path(text)),
            None => None,
        }
    } else if name == "polygon"@ {
        match value_of(attributes, "points"@) {
            Some(text) => Some(SourceView::Polygon(text)),
            None => None,
        }
    } else if name == "polyline"@ {
        match value_of(attributes, "points"@) {
            Some(text) => Some(SourceView::Polyline(text)),
            None => None,
        }
    } else if name == "rect"@ {
        Some(SourceView::Rect(attributes.filter(one_of("x"@, "y"@, "width"@, "height"@))))
    } else if name == "line"@ {
        Some(SourceView::Line(attributes.filter(one_of("x1"@, "y1"@, "x2"@, "y2"@))))
    } else {
        None
    }
}

/// The texts of the first element that has any.
pub open spec fn first_source(
    events: Seq<Option<(Seq<char>, Seq<(Seq<char>, Seq<char>)>)>>,
) -> Option<SourceView>
    decreases events.len(),
{
    if events.len() == 0 {
        None
    } else {
        let found = match events.first() {
            Some(element) => source_of(element),
            None => None,
        };
        if found is Some {
            found
        } else {
            first_source(events.drop_first())
        }
    }
}

/// The texts of a shape, or the error where no element has any.
pub open spec fn source_or_error(found: Option<SourceView>) -> Result<SourceView, SvgError> {
    match found {
        Some(source) => Ok(source),
        None => Err(SvgError::SvgInvalidType(SvgUnsupportedGeometryTypeError)),
    }
}

/// What a result of texts holds.
pub open spec fn source_view(found: Result<Source, SvgError>) -> Result<SourceView, SvgError> {
    match found {
        Ok(source) => Ok(source@),
        Err(error) => Err(error),
    }
}

/// Whether a text is this word.
pub(crate) fn is_word(text: &String, word: &str) -> (same: bool)
    ensures
        same == (text@ == word@),
{
    let other = String::from_str(word);
    *text == other
}

/// The value of the first attribute of this name.
fn find_value(attributes: &Vec<Attribute>, name: &str) -> (found: Option<String>)
    ensures
        match found {
            Some(text) => value_of(attributes_view(attributes@), name@) == Some(text@),
            None => value_of(attributes_view(attributes@), name@) is None,
        },
{
    let ghost all = attributes_view(attributes@);
    let mut i: usize = 0;
    proof {
        assert(all.skip(0) =~= all);
    }
    while i < attributes.len()
        invariant
            i <= attributes.len(),
            all == attributes_view(attributes@),
            value_of(all, name@) == value_of(all.skip(i as int), name@),
        decreases attributes.len() - i,
    {
        proof {
            assert(all.skip(i as int).drop_first() =~= all.skip(i + 1));
        }
        if is_word(&attributes[i].name, name) {
            return Some(attributes[i].value.clone());
        }
        i += 1;
    }
    None
}

/// The attributes with one of four names, in their order.
fn keep_named(attributes: &Vec<Attribute>, a: &str, b: &str, c: &str, d: &str) -> (kept: Vec<
    Attribute,
>)
    ensures
        attributes_view(kept@) == attributes_view(attributes@).filter(one_of(a@, b@, c@, d@)),
{
    let ghost all = attributes_view(attributes@);
    let ghost wanted = one_of(a@, b@, c@, d@);
    let mut kept: Vec<Attribute> = Vec::new();
    let mut i: usize = 0;
    proof {
        assert(all.take(0) =~= Seq::empty());
        reveal(Seq::filter);
        assert(attributes_view(kept@) =~= all.take(0).filter(wanted));
    }
    while i < attributes.len()
        invariant
            i <= attributes.len(),
            all == attributes_view(attributes@),
            wanted == one_of(a@, b@, c@, d@),
            attributes_view(kept@) == all.take(i as int).filter(wanted),
        decreases attributes.len() - i,
    {
        let attribute = &attributes[i];
        let ghost before = attributes_view(kept@);
        proof {
            assert(all.take(i + 1) =~= all.take(i as int).push(attribute@));
            all.take(i as int).lemma_filter_push(attribute@, wanted);
        }
        if is_word(&attribute.name, a) || is_word(&attribute.name, b) || is_word(
            &attribute.name,
            c,
        ) || is_word(&attribute.name, d) {
            kept.push(Attribute { name: attribute.name.clone(), value: attribute.value.clone() });
            proof {
                assert(attributes_view(kept@) =~= before.push(attribute@));
            }
        }
        i += 1;
    }
    proof {
        assert(all.take(attributes.len() as int) =~= all);
    }
    kept
}

/// The texts that an element holds of a shape.
pub fn element_source(element: &Element) -> (found: Option<Source>)
    ensures
        match found {
            Some(source) => source_of(element@) == Some(source@),
            None => source_of(element@) is None,
        },
{
    if is_word(&element.name, "path") {
        match find_value(&element.attributes, "d") {
            Some(text) => Some(Source::Path(text)),
            None => None,
        }
    } else if is_word(&element.name, "polygon") {
        match find_value(&element.attributes, "points") {
            Some(text) => Some(Source::Polygon(text)),
            None => None,
        }
    } else if is_word(&element.name, "polyline") {
        match find_value(&element.attributes, "points") {
            Some(text) => Some(Source::Polyline(text)),
            None => None,
        }
    } else if is_word(&element.name, "rect") {
        Some(Source::Rect(keep_named(&element.attributes, "x", "y", "width", "height")))
    } else if is_word(&element.name, "line") {
        Some(Source::Line(keep_named(&element.attributes, "x1", "y1", "x2", "y2")))
    } else {
        None
    }
}

/// The texts of the first element that has any. Without such an element the
/// markup is of no supported kind.
pub fn events_to_source(events: &Vec<Option<Element>>) -> (found: Result<Source, SvgError>)
    ensures
        source_view(found) == source_or_error(first_source(events_view(events@))),
{
    let ghost all = events_view(events@);
    let mut i: usize = 0;
    proof {
        assert(all.skip(0) =~= all);
    }
    while i < events.len()
        invariant
            i <= events.len(),
            all == events_view(events@),
            first_source(all) == first_source(all.skip(i as int)),
        decreases events.len() - i,
    {
        proof {
            assert(all.skip(i as int).drop_first() =~= all.skip(i + 1));
        }
        match &events[i] {
            Some(element) => {
                match element_source(element) {
                    Some(source) => {
                        return Ok(source);
                    },
                    None => {},
                }
            },
            None => {},
        }
        i += 1;
    }
    Err(SvgError::SvgInvalidType(SvgUnsupportedGeometryTypeError))
}

/// The texts that describe the shape of the first usable element of some
/// markup.
pub fn svg_to_source(svg: &str) -> (found: Result<Source, SvgError>)
    ensures
        source_view(found) == source_or_error(first_source(markup(svg@))),
{
    let events = read_events(svg);
    events_to_source(&events)
}

} // verus!
