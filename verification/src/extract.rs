//! What the crawler takes from other libraries: the elements of a page that
//! a selector matches, and the moment that a timestamp text denotes.

use crate::hackernews_core::{text_view, DateTime};
use vstd::prelude::*;

verus! {

/// What the crawler reads of one element of a page: the value of the
/// attribute that was asked for, if the element has it, and the markup inside
/// the element.
#[derive(Debug, Clone, PartialEq, Eq)]
pub struct ExtractedNode {
    pub attribute: Option<String>,
    pub inner_html: String,
}

/// The attribute values of the nodes, in their order.
pub open spec fn node_attributes(nodes: Seq<ExtractedNode>) -> Seq<Option<Seq<char>>> {
    Seq::new(nodes.len(), |i: int| text_view(nodes[i].attribute))
}

/// The characters of an optional name.
pub open spec fn name_view(name: Option<&str>) -> Option<Seq<char>> {
    match name {
        Some(name) => Some(name@),
        None => None,
    }
}

/// For each element of `document` that `selector` matches, in the order in
/// which the document is searched, the value of `attribute` if one was asked
/// for and the element has it; nothing at all where `selector` is no
/// selector.
pub uninterp spec fn matched_attributes(
    document: Seq<char>,
    selector: Seq<char>,
    attribute: Option<Seq<char>>,
) -> Option<Seq<Option<Seq<char>>>>;

/// The moment that `text` denotes when read by `format`, if it denotes one.
pub uninterp spec fn parsed_moment(text: Seq<char>, format: Seq<char>) -> Option<DateTime>;

/// Parses `selector` with `scraper::Selector::parse` and `document` with
/// `scraper::Html::parse_document`, walks the matches of `Html::select` and
/// takes from each its `Element::attr` and `ElementRef::inner_html`.
///
/// Believed, not proved: the call returns nothing exactly where the selector
/// does not parse, and otherwise one node for each match, with the attribute
/// values that `matched_attributes` names for these three texts. Nothing is
/// claimed of the markup: it lists the attributes of nested elements in the
/// order in which a hash map hands them out, which differs from run to run.
#[verifier::external_body]
pub(crate) fn select(document: &str, selector: &str, attribute: Option<&str>) -> (nodes: Option<
    Vec<ExtractedNode>,
>)
    ensures
        match nodes {
            Some(nodes) => matched_attributes(document@, selector@, name_view(attribute)) == Some(
                node_attributes(nodes@),
            ),
            None => matched_attributes(document@, selector@, name_view(attribute)) is None,
        },
{
    let selector = scraper::Selector::parse(selector).ok()?;
    let html = scraper::Html::parse_document(document);
    let nodes = html.select(&selector).map(
        |element| ExtractedNode {
            attribute: attribute.and_then(|name| element.value().attr(name)).map(str::to_string),
            inner_html: element.inner_html(),
        },
    ).collect();
    Some(nodes)
}

/// Calls `chrono::NaiveDateTime::parse_from_str` and hands the moment out as
/// seconds and nanoseconds.
///
/// Believed, not proved: the result is the one that `parsed_moment` names
/// for the two texts; a text that the format does not fit gives nothing.
#[verifier::external_body]
pub(crate) fn parse_moment(text: &str, format: &str) -> (moment: Option<DateTime>)
    ensures
        moment == parsed_moment(text@, format@),
{
    match chrono::NaiveDateTime::parse_from_str(text, format) {
        Ok(parsed) => Some(
            DateTime {
                seconds: parsed.and_utc().timestamp(),
                nanos: parsed.and_utc().timestamp_subsec_nanos(),
            },
        ),
        Err(_) => None,
    }
}

/// The white space of Unicode.
pub open spec fn is_whitespace(c: char) -> bool {
    let code = c as u32;
    ||| 0x09 <= code <= 0x0D
    ||| code == 0x20
    ||| code == 0x85
    ||| code == 0xA0
    ||| code == 0x1680
    ||| 0x2000 <= code <= 0x200A
    ||| code == 0x2028
    ||| code == 0x2029
    ||| code == 0x202F
    ||| code == 0x205F
    ||| code == 0x3000
}

/// The text without the white space at its start.
pub open spec fn trimmed_start(text: Seq<char>) -> Seq<char>
    decreases text.len(),
{
    if text.len() > 0 && is_whitespace(text.first()) {
        trimmed_start(text.drop_first())
    } else {
        text
    }
}

/// The text without the white space at its end.
pub open spec fn trimmed_end(text: Seq<char>) -> Seq<char>
    decreases text.len(),
{
    if text.len() > 0 && is_whitespace(text.last()) {
        trimmed_end(text.drop_last())
    } else {
        text
    }
}

/// The text without the white space at its start and at its end.
pub open spec fn trimmed(text: Seq<char>) -> Seq<char> {
    trimmed_end(trimmed_start(text))
}

/// Calls `str::trim`.
///
/// Believed, not proved: the result is the text without the white space, as
/// Unicode defines it, at its start and at its end.
#[verifier::external_body]
pub(crate) fn trim(text: &str) -> (inner: &str)
    ensures
        inner@ == trimmed(text@),
{
    text.trim()
}

} // verus!
