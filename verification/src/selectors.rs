use vstd::prelude::*;

use crate::error::Error;
use crate::scrape::matched_attrs;
use crate::scrape::matched_by;

verus! {

/// Whether a CSS selector group compiles; compilation is deterministic in the
/// selector text.
pub uninterp spec fn selector_compiles(css: Seq<char>) -> bool;

/// The fixed selector the extractor queries documents with.
pub open spec fn icon_selector() -> Seq<char> {
    "link[rel='icon']"@
}

/// Relies on `scraper::Selector::parse`: compiles a CSS selector group;
/// success depends on the selector text alone, and the compiled value matches
/// in any document exactly what the text matches.
#[verifier::external_body]
fn parse_selector(css: &str) -> (r: Option<scraper::Selector>)
    ensures
        (r is Some <==> selector_compiles(css@)),
        (r matches Some(s) ==> forall|h: scraper::Html| #[trigger] matched_by(h, s)
            == matched_attrs(h, css@)),
{
    scraper::Selector::parse(css).ok()
}

/// The compiled selector matching `link[rel='icon']` elements: what it
/// matches in any document is what the icon-selector text matches there. The
/// text is a fixed, valid selector, so at run time this does not fail;
/// compilation is still fallible in the selector engine, so the failure stays
/// modeled.
pub fn favicon_selector() -> (r: Result<scraper::Selector, Error>)
    ensures
        (r is Ok <==> selector_compiles(icon_selector())),
        (r matches Err(e) ==> e == Error::SelectorKind),
        (r matches Ok(s) ==> forall|h: scraper::Html| #[trigger] matched_by(h, s)
            == matched_attrs(h, icon_selector())),
{
    match parse_selector("link[rel='icon']") {
        Some(s) => Ok(s),
        None => Err(Error::SelectorKind),
    }
}

} // verus!
