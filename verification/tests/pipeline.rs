use favicon_picker::{
    extract_icon_links_from_html, favicon_selector, get_default_favicon, get_default_favicon_url,
    get_favicons_from_response, Error,
};
use favicon_picker::favicons_from_document;
use scraper::Html;

#[test]
fn extract_from_html() {
    let html_raw = "
            <!DOCTYPE html>
            <html>
                <head>
                    <link rel='icon' size='96x96' href='/some-favicon.ico'/>
                    <link rel='icon' size='any' href='/favicon.ico'/>
                </head>
            </html>
        ";
    let html = Html::parse_document(html_raw);
    let icons = extract_icon_links_from_html(&html).unwrap();
    assert_eq!(icons.len(), 2);
}

#[test]
fn selector_compiles_at_runtime() {
    assert!(favicon_selector().is_ok());
}

#[test]
fn selector_matches_only_icon_links() {
    let html_raw = "
            <html><head>
                <link rel='stylesheet' href='/style.css'/>
                <a href='/page'>page</a>
            </head></html>
        ";
    let html = Html::parse_document(html_raw);
    let icons = extract_icon_links_from_html(&html).unwrap();
    assert_eq!(icons.len(), 0);
}

#[test]
fn default_favicon_for_crates_io() {
    let url = get_default_favicon_url("https://crates.io").unwrap();
    assert_eq!(url, "https://crates.io/favicon.ico");
}

#[test]
fn default_favicon_record_has_no_metadata() {
    let favicon = get_default_favicon("https://crates.io").unwrap();
    assert_eq!(favicon.href, "https://crates.io/favicon.ico");
    assert_eq!(favicon.size, None);
    assert_eq!(favicon.type_, None);
}

#[test]
fn default_favicon_url_rejects_bad_base() {
    assert_eq!(get_default_favicon_url("not a url"), Err(Error::UrlParse));
}

#[test]
fn two_records_scenario() {
    let html_raw = "
            <html><head>
                <link rel='icon' href='/favicons/favicon.ico' sizes='any' />
                <link rel='icon' href='/favicons/icon.svg' type='image/svg+xml' />
            </head></html>
        ";
    let favicons = get_favicons_from_response(200, html_raw, "https://example.com/").unwrap();
    assert_eq!(favicons.len(), 2);
    assert_eq!(favicons[0].href, "https://example.com/favicons/favicon.ico");
    assert_eq!(favicons[0].size.as_deref(), Some("any"));
    assert_eq!(favicons[0].type_, None);
    assert_eq!(favicons[1].href, "https://example.com/favicons/icon.svg");
    assert_eq!(favicons[1].size, None);
    assert_eq!(favicons[1].type_.as_deref(), Some("image/svg+xml"));
}

#[test]
fn href_only_element_has_empty_metadata() {
    let html_raw = "<html><head><link rel='icon' href='/icon.png'/></head></html>";
    let favicons = get_favicons_from_response(200, html_raw, "https://example.com/").unwrap();
    assert_eq!(favicons.len(), 1);
    assert_eq!(favicons[0].href, "https://example.com/icon.png");
    assert_eq!(favicons[0].size, None);
    assert_eq!(favicons[0].type_, None);
}

#[test]
fn fallback_on_document_without_icons() {
    let html_raw = "<html><head><title>plain</title></head><body>text</body></html>";
    let favicons = get_favicons_from_response(200, html_raw, "https://example.com").unwrap();
    assert_eq!(favicons.len(), 1);
    assert_eq!(favicons[0].href, "https://example.com/favicon.ico");
    assert_eq!(favicons[0].size, None);
    assert_eq!(favicons[0].type_, None);
}

#[test]
fn missing_href_discarded_without_failing() {
    let html_raw = "
            <html><head>
                <link rel='icon' sizes='any' />
                <link rel='icon' href='/real.ico' />
            </head></html>
        ";
    let favicons = get_favicons_from_response(200, html_raw, "https://example.com/").unwrap();
    assert_eq!(favicons.len(), 1);
    assert_eq!(favicons[0].href, "https://example.com/real.ico");
}

#[test]
fn extraction_idempotent() {
    let html_raw = "
            <html><head>
                <link rel='icon' href='/favicons/favicon.ico' sizes='any' />
                <link rel='icon' href='/favicons/icon.svg' type='image/svg+xml' />
            </head></html>
        ";
    let html = Html::parse_document(html_raw);
    let first = favicons_from_document(&html, "https://example.com/").unwrap();
    let second = favicons_from_document(&html, "https://example.com/").unwrap();
    assert_eq!(first, second);
}

#[test]
fn non_success_status_fails_before_parsing() {
    let r = get_favicons_from_response(404, "<html></html>", "https://example.com/");
    assert_eq!(r, Err(Error::ReqwestSend { code: 404 }));
}

#[test]
fn boundary_statuses() {
    assert!(get_favicons_from_response(199, "<html></html>", "https://example.com/").is_err());
    assert!(get_favicons_from_response(200, "<html></html>", "https://example.com/").is_ok());
    assert!(get_favicons_from_response(299, "<html></html>", "https://example.com/").is_ok());
    assert_eq!(
        get_favicons_from_response(300, "<html></html>", "https://example.com/"),
        Err(Error::ReqwestSend { code: 300 })
    );
}

#[test]
fn unresolvable_href_fails_operation() {
    let html_raw = "<html><head><link rel='icon' href='http://['/></head></html>";
    let r = get_favicons_from_response(200, html_raw, "https://example.com/");
    assert_eq!(r, Err(Error::UrlParse));
}

#[test]
fn unresolvable_href_gives_no_partial_success() {
    let html_raw = "
            <html><head>
                <link rel='icon' href='/good.ico' />
                <link rel='icon' href='http://[' />
            </head></html>
        ";
    let r = get_favicons_from_response(200, html_raw, "https://example.com/");
    assert_eq!(r, Err(Error::UrlParse));
}

#[test]
fn url_parse_error_when_base_invalid() {
    let html_raw = "<html><head><link rel='icon' href='/icon.png'/></head></html>";
    let r = get_favicons_from_response(200, html_raw, "not a url");
    assert_eq!(r, Err(Error::UrlParse));
}
