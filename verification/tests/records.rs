use favicon_picker::favicon::{Favicon, InnerFavicon};
use favicon_picker::Error;
use scraper::Html;

#[test]
fn inner_favicon() {
    let fragmnents_raw = "
            <link rel='icon' href='/favicons/favicon.ico'
      sizes='any' /><link rel='icon' href='/favicons/icon.svg'
      type='image/svg+xml' />
        ";
    let fragments = Html::parse_fragment(fragmnents_raw);
    let inners = InnerFavicon::extract_favicons(&fragments).unwrap();
    assert_eq!(inners.len(), 2);
    assert_eq!(inners[0].href, "/favicons/favicon.ico");
    assert_eq!(inners[0].size.as_deref(), Some("any"));

    assert_eq!(inners[1].href, "/favicons/icon.svg");
    assert_eq!(inners[1].type_.as_deref(), Some("image/svg+xml"))
}

#[test]
fn from_attributes_requires_href() {
    let r = InnerFavicon::from_attributes(
        None,
        Some(String::from("any")),
        None,
        Some(String::from("image/png")),
    );
    assert_eq!(r, Err(Error::HrefNotFound));
}

#[test]
fn from_attributes_size_wins_over_sizes() {
    let r = InnerFavicon::from_attributes(
        Some(String::from("/icon.png")),
        Some(String::from("96x96")),
        Some(String::from("any")),
        None,
    )
    .unwrap();
    assert_eq!(r.size.as_deref(), Some("96x96"));
}

#[test]
fn from_attributes_sizes_fallback() {
    let r = InnerFavicon::from_attributes(Some(String::from("/icon.png")), None, Some(String::from("any")), None)
        .unwrap();
    assert_eq!(r.href, "/icon.png");
    assert_eq!(r.size.as_deref(), Some("any"));
    assert_eq!(r.type_, None);
}

#[test]
fn from_inner_resolves_relative_href() {
    let inner = InnerFavicon {
        href: String::from("/a/icon.png"),
        size: Some(String::from("32x32")),
        type_: None,
    };
    let favicon = Favicon::from_inner("https://example.com", &inner).unwrap();
    assert_eq!(favicon.href, "https://example.com/a/icon.png");
    assert_eq!(favicon.size.as_deref(), Some("32x32"));
    assert_eq!(favicon.type_, None);
}

#[test]
fn from_inner_rejects_unresolvable_href() {
    let inner = InnerFavicon { href: String::from("http://["), size: None, type_: None };
    let r = Favicon::from_inner("https://example.com", &inner);
    assert_eq!(r, Err(Error::UrlParse));
}

#[test]
fn favicon_straight_from_element() {
    let html = Html::parse_document(
        "<html><head><link rel='icon' href='/favicons/icon.svg' type='image/svg+xml'/></head></html>",
    );
    let elements = favicon_picker::extract_icon_links_from_html(&html).unwrap();
    assert_eq!(elements.len(), 1);
    let favicon = Favicon::try_from_element("https://example.com/", &elements[0]).unwrap();
    assert_eq!(favicon.href, "https://example.com/favicons/icon.svg");
    assert_eq!(favicon.size, None);
    assert_eq!(favicon.type_.as_deref(), Some("image/svg+xml"));
}

#[test]
fn get_href_url_joins_against_base() {
    let inner = InnerFavicon { href: String::from("icon.svg"), size: None, type_: None };
    let href = inner.get_href_url("https://example.com/a/b").unwrap();
    assert_eq!(href, "https://example.com/a/icon.svg");
}
