use vstd::prelude::*;

use crate::favicon::LinkAttributes;
use crate::favicon::LinkAttributesView;
use crate::selectors::selector_compiles;

verus! {

#[verifier::external_type_specification]
#[verifier::external_body]
pub struct ExHtml(scraper::Html);

#[verifier::external_type_specification]
#[verifier::external_body]
pub struct ExSelector(scraper::Selector);

#[verifier::external_type_specification]
#[verifier::external_body]
pub struct ExElementRef<'a>(scraper::ElementRef<'a>);

/// The attributes (`href`, `size`, `sizes`, `type`) of the elements of the
/// document that match the selector text, in document order, with `None` for
/// an attribute an element does not carry. Selection and attribute lookup are
/// deterministic, so this is a function of the document and the text.
pub uninterp spec fn matched_attrs(html: scraper::Html, css: Seq<char>) -> Seq<LinkAttributesView>;

/// `matched_attrs` of the document that parsing a body text yields; parsing
/// is deterministic in the text.
pub uninterp spec fn parsed_attrs(text: Seq<char>, css: Seq<char>) -> Seq<LinkAttributesView>;

/// The attributes of the elements of the document that a compiled selector
/// value matches, in document order; a function of the document and the
/// selector value.
pub uninterp spec fn matched_by(html: scraper::Html, selector: scraper::Selector) -> Seq<
    LinkAttributesView,
>;

/// The attributes (`href`, `size`, `sizes`, `type`) one element carries;
/// attribute lookup is deterministic, so this is a function of the element.
pub uninterp spec fn attrs_of(element: scraper::ElementRef<'_>) -> LinkAttributesView;

/// Relies on `scraper::Html::parse_document`: parses HTML text into a
/// document tree, recovering from malformed markup instead of failing; the
/// tree, and so what any selector matches in it, depends on the text alone.
#[verifier::external_body]
pub(crate) fn parse_document(text: &str) -> (r: scraper::Html)
    ensures
        forall|css: Seq<char>| #[trigger] matched_attrs(r, css) == parsed_attrs(text@, css),
{
    scraper::Html::parse_document(text)
}

/// Relies on `scraper::Html::select`: hands out the elements of the document
/// that match the compiled selector, in document order — one element, with
/// the attributes `matched_by` lists, for each entry of `matched_by`.
#[verifier::external_body]
pub(crate) fn select_elements<'a>(
    html: &'a scraper::Html,
    selector: &scraper::Selector,
) -> (r: Vec<scraper::ElementRef<'a>>)
    ensures
        r@.len() == matched_by(*html, *selector).len(),
        forall|i: int| 0 <= i < r@.len() ==> #[trigger] attrs_of(r@[i]) == matched_by(
            *html,
            *selector,
        )[i],
{
    html.select(selector).collect()
}

/// Relies on `scraper::ElementRef::attr`: the element's value for the named
/// attribute, or `None` when the element does not carry it; for the four
/// attributes the record builder reads, that is the matching field of
/// `attrs_of`.
#[verifier::external_body]
pub(crate) fn element_attr(element: &scraper::ElementRef<'_>, name: &str) -> (r: Option<String>)
    ensures
        (name@ == "href"@ ==> r.deep_view() == attrs_of(*element).href),
        (name@ == "size"@ ==> r.deep_view() == attrs_of(*element).size),
        (name@ == "sizes"@ ==> r.deep_view() == attrs_of(*element).sizes),
        (name@ == "type"@ ==> r.deep_view() == attrs_of(*element).type_),
{
    element.attr(name).map(String::from)
}

/// Relies on `scraper::Selector::parse`, `scraper::Html::select` and
/// `scraper::ElementRef::attr`: compiles the selector text, and reads off
/// each matching element, in document order, the four attributes the record
/// builder looks at; `None` exactly when the selector does not compile.
#[verifier::external_body]
pub(crate) fn select_icon_attrs(html: &scraper::Html, css: &str) -> (r: Option<
    Vec<LinkAttributes>,
>)
    ensures
        (r is Some <==> selector_compiles(css@)),
        (r matches Some(v) ==> v.deep_view() == matched_attrs(*html, css@)),
{
    let selector = scraper::Selector::parse(css).ok()?;
    let mut attrs = Vec::new();
    for element in html.select(&selector) {
        attrs.push(LinkAttributes {
            href: element.attr("href").map(String::from),
            size: element.attr("size").map(String::from),
            sizes: element.attr("sizes").map(String::from),
            type_: element.attr("type").map(String::from),
        });
    }
    Some(attrs)
}

} // verus!
