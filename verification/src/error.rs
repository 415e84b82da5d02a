use vstd::prelude::*;

verus! {

/// Everything that can go wrong while picking favicons: selector compilation,
/// URL resolution, a matched element without an `href`, transport failures,
/// and a non-success HTTP status (which carries the status code).
///
/// The extraction pipeline follows the fallback policy for empty results, so
/// it never returns `NoLinkIconElements`; the variant stays for callers that
/// want to treat an empty extraction as an error themselves.
#[derive(Clone, Copy, Debug, PartialEq, Eq, Structural)]
pub enum Error {
    /// The CSS selector for icon links did not compile.
    SelectorKind,
    /// An `href` did not resolve to an absolute URL against the base.
    UrlParse,
    /// A matched element has no `href` attribute.
    HrefNotFound,
    /// The HTTP transport failed before a status was available.
    Reqwest,
    /// No `link[rel='icon']` element was found.
    NoLinkIconElements,
    /// The fetch answered with a non-success status code.
    ReqwestSend { code: u16 },
}

} // verus!
