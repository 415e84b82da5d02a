use vstd::prelude::*;

use crate::error::Error;
use crate::scrape::attrs_of;
use crate::scrape::element_attr;
use crate::scrape::matched_attrs;
use crate::scrape::select_icon_attrs;
use crate::selectors::icon_selector;
use crate::selectors::selector_compiles;
use crate::urls::resolve_reference;
use crate::urls::resolved_url;

verus! {

/// The attributes the extractor reads off one matched element, before any of
/// the record-building policy is applied: every field may be absent.
#[derive(Debug, Clone, PartialEq, Eq)]
pub struct LinkAttributes {
    pub href: Option<String>,
    pub size: Option<String>,
    pub sizes: Option<String>,
    pub type_: Option<String>,
}

/// Mathematical model of `LinkAttributes`.
#[verifier::ext_equal]
pub ghost struct LinkAttributesView {
    pub href: Option<Seq<char>>,
    pub size: Option<Seq<char>>,
    pub sizes: Option<Seq<char>>,
    pub type_: Option<Seq<char>>,
}

impl View for LinkAttributes {
    type V = LinkAttributesView;

    open spec fn view(&self) -> LinkAttributesView {
        LinkAttributesView {
            href: self.href.deep_view(),
            size: self.size.deep_view(),
            sizes: self.sizes.deep_view(),
            type_: self.type_.deep_view(),
        }
    }
}

impl DeepView for LinkAttributes {
    type V = LinkAttributesView;

    open spec fn deep_view(&self) -> LinkAttributesView {
        self.view()
    }
}

/// Mathematical model of an `InnerFavicon`.
#[verifier::ext_equal]
pub ghost struct InnerFaviconView {
    pub href: Seq<char>,
    pub size: Option<Seq<char>>,
    pub type_: Option<Seq<char>>,
}

/// Mathematical model of a `Favicon`.
#[verifier::ext_equal]
pub ghost struct FaviconView {
    pub href: Seq<char>,
    pub size: Option<Seq<char>>,
    pub type_: Option<Seq<char>>,
}

/// The raw favicon declaration read off one matched element: `href` as it
/// stands in the document (possibly relative), with the optional metadata.
#[derive(Debug, Clone, PartialEq, Eq)]
pub struct InnerFavicon {
    pub href: String,
    pub size: Option<String>,
    pub type_: Option<String>,
}

impl View for InnerFavicon {
    type V = InnerFaviconView;

    open spec fn view(&self) -> InnerFaviconView {
        InnerFaviconView { href: self.href@, size: self.size.deep_view(), type_: self.type_.deep_view() }
    }
}

impl DeepView for InnerFavicon {
    type V = InnerFaviconView;

    open spec fn deep_view(&self) -> InnerFaviconView {
        self.view()
    }
}

/// An owned favicon record: `href` is an absolute URL, successfully resolved
/// against the base it was built with.
#[derive(Debug, Clone, PartialEq, Eq)]
pub struct Favicon {
    /// The icon's absolute URL.
    pub href: String,
    /// The icon's declared size, when the element carried one.
    pub size: Option<String>,
    /// The icon's declared media type, when the element carried one.
    pub type_: Option<String>,
}

impl View for Favicon {
    type V = FaviconView;

    open spec fn view(&self) -> FaviconView {
        FaviconView { href: self.href@, size: self.size.deep_view(), type_: self.type_.deep_view() }
    }
}

impl DeepView for Favicon {
    type V = FaviconView;

    open spec fn deep_view(&self) -> FaviconView {
        self.view()
    }
}

/// A string that standard URL-reference resolution produced, so an absolute
/// URL.
pub open spec fn is_resolved_url(href: Seq<char>) -> bool {
    exists|base: Seq<char>, reference: Seq<char>| resolved_url(base, reference) == Some(href)
}

impl Favicon {
    /// Every favicon record holds an absolute URL that reference resolution
    /// produced; none is handed out relative or unparsed.
    pub open spec fn wf(self) -> bool {
        is_resolved_url(self@.href)
    }
}

/// Stage one of record building: `href` is required, `size` wins over
/// `sizes`, `type` passes through; absent metadata stays absent.
pub open spec fn inner_of_attributes(attrs: LinkAttributesView) -> Option<InnerFaviconView> {
    match attrs.href {
        Some(h) => Some(
            InnerFaviconView {
                href: h,
                size: if attrs.size is Some {
                    attrs.size
                } else {
                    attrs.sizes
                },
                type_: attrs.type_,
            },
        ),
        None => None,
    }
}

/// Stage two of record building: the record's `href` resolved against the
/// base, the metadata taken over unchanged.
pub open spec fn favicon_of_inner(base: Seq<char>, inner: InnerFaviconView) -> Option<FaviconView> {
    match resolved_url(base, inner.href) {
        Some(u) => Some(FaviconView { href: u, size: inner.size, type_: inner.type_ }),
        None => None,
    }
}

/// Both record-building stages on one element's attributes.
pub open spec fn favicon_of_attributes(base: Seq<char>, attrs: LinkAttributesView) -> Option<
    FaviconView,
> {
    match inner_of_attributes(attrs) {
        Some(i) => favicon_of_inner(base, i),
        None => None,
    }
}

/// Stage one across a sequence of matched elements, in order, discarding the
/// elements without an `href`.
pub open spec fn extracted_inners(attrs: Seq<LinkAttributesView>) -> Seq<InnerFaviconView>
    decreases attrs.len(),
{
    if attrs.len() == 0 {
        Seq::empty()
    } else {
        let prefix = extracted_inners(attrs.drop_last());
        match inner_of_attributes(attrs.last()) {
            Some(i) => prefix.push(i),
            None => prefix,
        }
    }
}

/// Stage two across extracted records, in order. Unlike stage one, a failure
/// here is not absorbed: a record whose `href` does not resolve against the
/// base fails the whole batch with `UrlParse` — only missing-attribute
/// failures are per-element, every other failure propagates.
pub open spec fn built_favicons(base: Seq<char>, inners: Seq<InnerFaviconView>) -> Result<
    Seq<FaviconView>,
    Error,
>
    decreases inners.len(),
{
    if inners.len() == 0 {
        Ok(Seq::empty())
    } else {
        match built_favicons(base, inners.drop_last()) {
            Ok(prefix) => match favicon_of_inner(base, inners.last()) {
                Some(f) => Ok(prefix.push(f)),
                None => Err(Error::UrlParse),
            },
            Err(e) => Err(e),
        }
    }
}

/// The models of the records a favicon-building result carries.
pub open spec fn views_of_result(r: Result<Vec<Favicon>, Error>) -> Result<
    Seq<FaviconView>,
    Error,
> {
    match r {
        Ok(v) => Ok(v.deep_view()),
        Err(e) => Err(e),
    }
}

/// An element carrying an `href` and none of `size`, `sizes` and `type`
/// builds a record whose metadata fields are both empty and whose `href` is
/// the element's `href` resolved against the base.
pub proof fn lemma_metadata_absent(base: Seq<char>, attrs: LinkAttributesView, h: Seq<char>, u: Seq<char>)
    requires
        attrs.href == Some(h),
        attrs.size is None,
        attrs.sizes is None,
        attrs.type_ is None,
        resolved_url(base, h) == Some(u),
    ensures
        inner_of_attributes(attrs) == Some(
            InnerFaviconView { href: h, size: None::<Seq<char>>, type_: None::<Seq<char>> },
        ),
        favicon_of_inner(
            base,
            InnerFaviconView { href: h, size: None::<Seq<char>>, type_: None::<Seq<char>> },
        ) == Some(FaviconView { href: u, size: None::<Seq<char>>, type_: None::<Seq<char>> }),
{
}

/// When `size` is absent, the built record's size falls back to the `sizes`
/// attribute's value.
pub proof fn lemma_sizes_fallback(attrs: LinkAttributesView, h: Seq<char>, s: Seq<char>)
    requires
        attrs.href == Some(h),
        attrs.size is None,
        attrs.sizes == Some(s),
    ensures
        inner_of_attributes(attrs) == Some(
            InnerFaviconView { href: h, size: Some(s), type_: attrs.type_ },
        ),
{
}

fn clone_opt(s: &Option<String>) -> (r: Option<String>)
    ensures
        r.deep_view() == s.deep_view(),
{
    match s {
        Some(x) => Some(x.clone()),
        None => None,
    }
}

impl InnerFavicon {
    /// Builds the stage-one record from one element's attributes: fails with
    /// `HrefNotFound` exactly when `href` is absent, takes `size` and falls
    /// back to `sizes`, and passes `type` through.
    pub fn from_attributes(
        href: Option<String>,
        size: Option<String>,
        sizes: Option<String>,
        type_: Option<String>,
    ) -> (r: Result<InnerFavicon, Error>)
        ensures
            (r is Err <==> href is None),
            (r matches Err(e) ==> e == Error::HrefNotFound),
            (r matches Ok(f) ==> Some(f@) == inner_of_attributes(
                LinkAttributesView {
                    href: href.deep_view(),
                    size: size.deep_view(),
                    sizes: sizes.deep_view(),
                    type_: type_.deep_view(),
                },
            )),
    {
        match href {
            Some(h) => Ok(
                InnerFavicon {
                    href: h,
                    size: if size.is_some() {
                        size
                    } else {
                        sizes
                    },
                    type_,
                },
            ),
            None => Err(Error::HrefNotFound),
        }
    }

    /// Stage one applied to one matched element: the stage-one record built
    /// from the attributes the element carries, failing with `HrefNotFound`
    /// exactly when it carries no `href`.
    pub fn try_from_element(element: &scraper::ElementRef<'_>) -> (r: Result<InnerFavicon, Error>)
        ensures
            (r is Err <==> attrs_of(*element).href is None),
            (r matches Err(e) ==> e == Error::HrefNotFound),
            (r matches Ok(f) ==> Some(f@) == inner_of_attributes(attrs_of(*element))),
    {
        let href = element_attr(element, "href");
        let size = element_attr(element, "size");
        let sizes = element_attr(element, "sizes");
        let type_ = element_attr(element, "type");
        proof {
            assert(LinkAttributesView {
                href: href.deep_view(),
                size: size.deep_view(),
                sizes: sizes.deep_view(),
                type_: type_.deep_view(),
            } =~= attrs_of(*element));
        }
        Self::from_attributes(href, size, sizes, type_)
    }

    /// Resolves this record's `href` against the base URL; fails with
    /// `UrlParse` exactly when resolution fails.
    pub fn get_href_url(&self, base_url: &str) -> (r: Result<String, Error>)
        ensures
            match r {
                Ok(u) => resolved_url(base_url@, self.href@) == Some(u@),
                Err(e) => e == Error::UrlParse && resolved_url(base_url@, self.href@) is None,
            },
    {
        match resolve_reference(base_url, self.href.as_str()) {
            Some(u) => Ok(u),
            None => Err(Error::UrlParse),
        }
    }

    /// Stage one across a whole document: one record per element matching the
    /// favicon selector, in document order, the elements without an `href`
    /// silently discarded. Fails only when the selector does not compile.
    pub fn extract_favicons(html: &scraper::Html) -> (r: Result<Vec<InnerFavicon>, Error>)
        ensures
            (r is Ok <==> selector_compiles(icon_selector())),
            (r matches Err(e) ==> e == Error::SelectorKind),
            (r matches Ok(v) ==> v.deep_view() == extracted_inners(
                matched_attrs(*html, icon_selector()),
            )),
    {
        let attrs = match select_icon_attrs(html, "link[rel='icon']") {
            Some(v) => v,
            None => return Err(Error::SelectorKind),
        };
        let ghost all = matched_attrs(*html, icon_selector());
        let mut inners: Vec<InnerFavicon> = Vec::new();
        let mut i: usize = 0;
        while i < attrs.len()
            invariant
                i <= attrs.len(),
                attrs.deep_view() == all,
                inners.deep_view() == extracted_inners(all.take(i as int)),
            decreases attrs.len() - i,
        {
            let ghost taken = all.take(i as int);
            let ghost next = all.take(i + 1int);
            proof {
                assert(next.drop_last() =~= taken);
                assert(next.last() == all[i as int]);
            }
            let attr = &attrs[i];
            match Self::from_attributes(
                clone_opt(&attr.href),
                clone_opt(&attr.size),
                clone_opt(&attr.sizes),
                clone_opt(&attr.type_),
            ) {
                Ok(f) => {
                    inners.push(f);
                    proof {
                        assert(inners.deep_view() =~= extracted_inners(next));
                    }
                },
                Err(_) => {
                    proof {
                        assert(inners.deep_view() =~= extracted_inners(next));
                    }
                },
            }
            i += 1;
        }
        proof {
            assert(all.take(attrs@.len() as int) =~= all);
        }
        Ok(inners)
    }
}

impl Favicon {
    /// Stage two of record building: resolves the record's `href` against the
    /// base and copies the metadata; fails with `UrlParse` exactly when
    /// resolution fails.
    pub fn from_inner(base_url: &str, inner: &InnerFavicon) -> (r: Result<Favicon, Error>)
        ensures
            match r {
                Ok(f) => favicon_of_inner(base_url@, inner@) == Some(f@) && f.wf(),
                Err(e) => e == Error::UrlParse && favicon_of_inner(base_url@, inner@) is None,
            },
    {
        let href = match inner.get_href_url(base_url) {
            Ok(u) => u,
            Err(e) => return Err(e),
        };
        let favicon = Favicon { href, size: clone_opt(&inner.size), type_: clone_opt(&inner.type_) };
        proof {
            assert(resolved_url(base_url@, inner@.href) == Some(favicon@.href));
        }
        Ok(favicon)
    }

    /// Both stages on one matched element: the element's attributes read and
    /// its `href` resolved against the base. Fails with `HrefNotFound`
    /// exactly when the element carries no `href`, and with `UrlParse`
    /// exactly when its `href` is present but does not resolve.
    pub fn try_from_element(base_url: &str, element: &scraper::ElementRef<'_>) -> (r: Result<
        Favicon,
        Error,
    >)
        ensures
            (attrs_of(*element).href is None ==> r == Err::<Favicon, Error>(Error::HrefNotFound)),
            (inner_of_attributes(attrs_of(*element)) matches Some(iv) ==> match r {
                Ok(f) => favicon_of_inner(base_url@, iv) == Some(f@) && f.wf(),
                Err(e) => e == Error::UrlParse && favicon_of_inner(base_url@, iv) is None,
            }),
            (r matches Ok(f) ==> favicon_of_attributes(base_url@, attrs_of(*element)) == Some(
                f@,
            )),
    {
        let inner = match InnerFavicon::try_from_element(element) {
            Ok(inner) => inner,
            Err(e) => return Err(e),
        };
        Favicon::from_inner(base_url, &inner)
    }

    /// Stage two across all extracted records, in order: fails with
    /// `UrlParse` as soon as one record's `href` does not resolve — a
    /// resolution failure is not absorbed the way a missing `href` is.
    pub fn build_favicons(base_url: &str, inners: &Vec<InnerFavicon>) -> (r: Result<
        Vec<Favicon>,
        Error,
    >)
        ensures
            views_of_result(r) == built_favicons(base_url@, inners.deep_view()),
            (r matches Ok(v) ==> forall|i: int| 0 <= i < v@.len() ==> (#[trigger] v@[i]).wf()),
    {
        let mut favicons: Vec<Favicon> = Vec::new();
        let mut i: usize = 0;
        proof {
            assert(inners.deep_view().take(0) =~= Seq::<InnerFaviconView>::empty());
            assert(favicons.deep_view() =~= Seq::<FaviconView>::empty());
        }
        while i < inners.len()
            invariant
                i <= inners.len(),
                built_favicons(base_url@, inners.deep_view().take(i as int)) == Ok::<
                    Seq<FaviconView>,
                    Error,
                >(favicons.deep_view()),
                forall|k: int| 0 <= k < favicons@.len() ==> (#[trigger] favicons@[k]).wf(),
            decreases inners.len() - i,
        {
            let ghost taken = inners.deep_view().take(i as int);
            let ghost next = inners.deep_view().take(i + 1int);
            proof {
                assert(next.drop_last() =~= taken);
                assert(next.last() == inners.deep_view()[i as int]);
            }
            match Favicon::from_inner(base_url, &inners[i]) {
                Ok(f) => {
                    favicons.push(f);
                    proof {
                        assert(built_favicons(base_url@, next) == Ok::<Seq<FaviconView>, Error>(
                            favicons.deep_view(),
                        )) by {
                            assert(favicons.deep_view() =~= built_favicons(
                                base_url@,
                                taken,
                            )->Ok_0.push(f@));
                        }
                    }
                },
                Err(e) => {
                    proof {
                        assert(built_favicons(base_url@, next) == Err::<Seq<FaviconView>, Error>(
                            Error::UrlParse,
                        ));
                        lemma_built_err_prefix(base_url@, inners.deep_view(), i + 1);
                    }
                    return Err(e);
                },
            }
            i += 1;
        }
        proof {
            assert(inners.deep_view().take(inners@.len() as int) =~= inners.deep_view());
        }
        Ok(favicons)
    }
}

/// Once stage two has failed on a prefix of the records, the whole batch
/// fails the same way: the error is not absorbed by what follows.
proof fn lemma_built_err_prefix(base: Seq<char>, inners: Seq<InnerFaviconView>, j: int)
    requires
        0 <= j <= inners.len(),
        built_favicons(base, inners.take(j)) is Err,
    ensures
        built_favicons(base, inners) == built_favicons(base, inners.take(j)),
    decreases inners.len() - j,
{
    if j == inners.len() {
        assert(inners.take(j) =~= inners);
    } else {
        assert(inners.take(j + 1).drop_last() =~= inners.take(j));
        lemma_built_err_prefix(base, inners, j + 1);
    }
}

} // verus!
