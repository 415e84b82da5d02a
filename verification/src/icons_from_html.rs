use vstd::prelude::*;

use crate::error::Error;
use crate::scrape::attrs_of;
use crate::scrape::matched_attrs;
use crate::selectors::favicon_selector;
use crate::selectors::icon_selector;
use crate::selectors::selector_compiles;

verus! {

/// All `link[rel='icon']` elements of a parsed document, in document order —
/// one element for each entry the document has under the icon selector,
/// carrying that entry's attributes. Fails only when the icon selector does
/// not compile.
pub fn extract_icon_links_from_html<'a>(html: &'a scraper::Html) -> (r: Result<
    Vec<scraper::ElementRef<'a>>,
    Error,
>)
    ensures
        (r is Ok <==> selector_compiles(icon_selector())),
        (r matches Err(e) ==> e == Error::SelectorKind),
        (r matches Ok(v) ==> v@.len() == matched_attrs(*html, icon_selector()).len()
            && forall|i: int| 0 <= i < v@.len() ==> #[trigger] attrs_of(v@[i]) == matched_attrs(
                *html,
                icon_selector(),
            )[i]),
{
    let selector = match favicon_selector() {
        Ok(s) => s,
        Err(e) => return Err(e),
    };
    Ok(crate::scrape::select_elements(html, &selector))
}

} // verus!
