pub mod error;
pub mod favicon;
pub mod icons_from_html;
pub mod scrape;
pub mod selectors;
pub mod urls;

use vstd::prelude::*;

pub use error::Error;
pub use favicon::Favicon;
pub use favicon::InnerFavicon;
pub use icons_from_html::extract_icon_links_from_html;
pub use selectors::favicon_selector;

use favicon::built_favicons;
use favicon::extracted_inners;
use favicon::views_of_result;
use favicon::FaviconView;
use favicon::LinkAttributesView;
use scrape::matched_attrs;
use scrape::parsed_attrs;
use selectors::icon_selector;
use selectors::selector_compiles;
use urls::resolved_url;

verus! {

/// The conventional location tried when a page declares no icon of its own.
pub open spec fn default_icon_path() -> Seq<char> {
    "/favicon.ico"@
}

/// The default favicon location for a base URL: `base` joined with
/// `/favicon.ico`, or `Err(UrlParse)` when that reference does not resolve.
pub fn get_default_favicon_url(base_url: &str) -> (r: Result<String, Error>)
    ensures
        match r {
            Ok(u) => crate::urls::resolved_url(base_url@, default_icon_path()) == Some(u@),
            Err(e) => e == Error::UrlParse && crate::urls::resolved_url(
                base_url@,
                default_icon_path(),
            ) is None,
        },
{
    match crate::urls::resolve_reference(base_url, "/favicon.ico") {
        Some(u) => Ok(u),
        None => Err(Error::UrlParse),
    }
}

/// The record the fallback policy synthesizes: the default location with no
/// metadata, or `None` when the default path does not resolve either.
pub open spec fn default_favicon_of(base: Seq<char>) -> Option<FaviconView> {
    match resolved_url(base, default_icon_path()) {
        Some(u) => Some(FaviconView { href: u, size: None, type_: None }),
        None => None,
    }
}

/// The default favicon record for a base URL: the default location, with both
/// metadata fields empty.
pub fn get_default_favicon(base_url: &str) -> (r: Result<Favicon, Error>)
    ensures
        match r {
            Ok(f) => default_favicon_of(base_url@) == Some(f@) && f.wf(),
            Err(e) => e == Error::UrlParse && default_favicon_of(base_url@) is None,
        },
{
    let href = match get_default_favicon_url(base_url) {
        Ok(u) => u,
        Err(e) => return Err(e),
    };
    let favicon = Favicon { href, size: None, type_: None };
    proof {
        assert(resolved_url(base_url@, default_icon_path()) == Some(favicon@.href));
    }
    Ok(favicon)
}

/// Whether an HTTP status code counts as success (2xx).
pub open spec fn success_status(status: u16) -> bool {
    200 <= status < 300
}

/// Decides `success_status` on a concrete code.
pub fn is_success_status(status: u16) -> (r: bool)
    ensures
        r == success_status(status),
{
    200 <= status && status < 300
}

/// What the extraction pipeline answers for a document whose matched elements
/// carry the given attributes: the built records; when no record was built
/// because every matched element lacked an `href` (or none matched), the
/// single fallback record; `Err(UrlParse)` when a present `href`, or the
/// fallback reference, does not resolve.
pub open spec fn pipeline_views(base: Seq<char>, attrs: Seq<LinkAttributesView>) -> Result<
    Seq<FaviconView>,
    Error,
> {
    match built_favicons(base, extracted_inners(attrs)) {
        Ok(built) => {
            if built.len() > 0 {
                Ok(built)
            } else {
                match default_favicon_of(base) {
                    Some(f) => Ok(seq![f]),
                    None => Err(Error::UrlParse),
                }
            }
        },
        Err(e) => Err(e),
    }
}

/// The parse-tree half of the orchestrator: extraction, record building and
/// the fallback policy, for callers who already hold a parsed document. Only
/// a missing `href` is absorbed per element; a present `href` that does not
/// resolve fails the operation with `UrlParse`. On success the collection is
/// never empty and every record holds a resolved absolute URL.
pub fn favicons_from_document(html: &scraper::Html, base_url: &str) -> (r: Result<
    Vec<Favicon>,
    Error,
>)
    ensures
        (!selector_compiles(icon_selector()) ==> r == Err::<Vec<Favicon>, Error>(
            Error::SelectorKind,
        )),
        (selector_compiles(icon_selector()) ==> views_of_result(r) == pipeline_views(
            base_url@,
            matched_attrs(*html, icon_selector()),
        )),
        (r matches Ok(v) ==> v@.len() >= 1 && forall|i: int|
            0 <= i < v@.len() ==> (#[trigger] v@[i]).wf()),
{
    let inners = match InnerFavicon::extract_favicons(html) {
        Ok(v) => v,
        Err(e) => return Err(e),
    };
    let ghost attrs = matched_attrs(*html, icon_selector());
    let favicons = match Favicon::build_favicons(base_url, &inners) {
        Ok(v) => v,
        Err(e) => {
            proof {
                assert(views_of_result(Err::<Vec<Favicon>, Error>(e)) == pipeline_views(
                    base_url@,
                    attrs,
                ));
            }
            return Err(e);
        },
    };
    if favicons.len() == 0 {
        match get_default_favicon(base_url) {
            Ok(f) => {
                let single = vec![f];
                proof {
                    assert(single.deep_view() =~= seq![f@]);
                    assert(views_of_result(Ok(single)) == pipeline_views(base_url@, attrs));
                }
                Ok(single)
            },
            Err(e) => {
                proof {
                    assert(views_of_result(Err::<Vec<Favicon>, Error>(e)) == pipeline_views(
                        base_url@,
                        attrs,
                    ));
                }
                Err(e)
            },
        }
    } else {
        proof {
            assert(views_of_result(Ok(favicons)) == pipeline_views(base_url@, attrs));
        }
        Ok(favicons)
    }
}

/// The response half of the orchestrator: a non-success status fails with the
/// status-carrying error before any parsing; a success status has the body
/// parsed and handed to the document pipeline.
pub fn get_favicons_from_response(status: u16, body: &str, base_url: &str) -> (r: Result<
    Vec<Favicon>,
    Error,
>)
    ensures
        (!success_status(status) ==> r == Err::<Vec<Favicon>, Error>(
            Error::ReqwestSend { code: status },
        )),
        (success_status(status) && !selector_compiles(icon_selector()) ==> r == Err::<
            Vec<Favicon>,
            Error,
        >(Error::SelectorKind)),
        (success_status(status) && selector_compiles(icon_selector()) ==> views_of_result(r)
            == pipeline_views(base_url@, parsed_attrs(body@, icon_selector()))),
        (r matches Ok(v) ==> v@.len() >= 1 && forall|i: int|
            0 <= i < v@.len() ==> (#[trigger] v@[i]).wf()),
{
    if !is_success_status(status) {
        return Err(Error::ReqwestSend { code: status });
    }
    let html = scrape::parse_document(body);
    proof {
        assert(matched_attrs(html, icon_selector()) == parsed_attrs(body@, icon_selector()));
    }
    favicons_from_document(&html, base_url)
}

/// With no matched elements, the pipeline under the fallback policy returns
/// exactly one record: the default location with both metadata fields empty.
pub proof fn lemma_fallback_on_empty(base: Seq<char>)
    ensures
        pipeline_views(base, Seq::empty()) == (match default_favicon_of(base) {
            Some(f) => Ok::<Seq<FaviconView>, Error>(seq![f]),
            None => Err::<Seq<FaviconView>, Error>(Error::UrlParse),
        }),
{
    assert(extracted_inners(Seq::empty()) =~= Seq::<favicon::InnerFaviconView>::empty());
    assert(built_favicons(base, Seq::<favicon::InnerFaviconView>::empty()) == Ok::<
        Seq<FaviconView>,
        Error,
    >(Seq::empty()));
}

/// With no matched elements and a default reference that resolves against the
/// base, the pipeline under the fallback policy returns exactly one record:
/// the resolved default location with both metadata fields empty. Together
/// with the orchestrators' contracts this fixes their answer on any body
/// whose document has no icon element, whenever the fixed selector compiles
/// (compilation stays modeled as fallible).
pub proof fn lemma_fallback_record(base: Seq<char>, attrs: Seq<LinkAttributesView>, u: Seq<char>)
    requires
        attrs.len() == 0,
        resolved_url(base, default_icon_path()) == Some(u),
    ensures
        pipeline_views(base, attrs) == Ok::<Seq<FaviconView>, Error>(
            seq![FaviconView { href: u, size: None, type_: None }],
        ),
{
    assert(attrs =~= Seq::<LinkAttributesView>::empty());
    lemma_fallback_on_empty(base);
}

/// An element without an `href` is excluded from the extracted records and
/// from the pipeline's answer, and does not make either fail.
pub proof fn lemma_missing_href_skipped(base: Seq<char>, attrs: Seq<LinkAttributesView>, i: int)
    requires
        0 <= i < attrs.len(),
        attrs[i].href is None,
    ensures
        extracted_inners(attrs) == extracted_inners(attrs.remove(i)),
        pipeline_views(base, attrs) == pipeline_views(base, attrs.remove(i)),
    decreases attrs.len(),
{
    if i == attrs.len() - 1 {
        assert(attrs.remove(i) =~= attrs.drop_last());
    } else {
        lemma_missing_href_skipped(base, attrs.drop_last(), i);
        assert(attrs.remove(i).drop_last() =~= attrs.drop_last().remove(i));
        assert(attrs.remove(i).last() == attrs.last());
    }
}

} // verus!
