use vstd::prelude::*;
use crate::error::{html_scraping, missing, text_view, ScrapErr, ScrapErrView};
use crate::markup::{first_attribute, looked_up, Lookup, LookupView};
use crate::protocol::{Request, RequestView};

verus! {

/// The selector of the link to the original image on a post's page.
pub open spec fn selector() -> Seq<char> {
    ".image-view-original-link[href]"@
}

/// The URL of the original image that a post's page links to.
pub open spec fn media_url_of(page: Seq<char>) -> Result<Seq<char>, ScrapErrView> {
    match looked_up(page, selector(), "href"@) {
        LookupView::Value(link) => Ok(link),
        LookupView::NoAttribute => Err(missing("a.href"@, "danbooru"@)),
        _ => Err(missing("html.a"@, "danbooru"@)),
    }
}

/// Finds the URL of the original image on a post's page.
pub fn media_url(page: &str) -> (r: Result<String, ScrapErr>)
    ensures
        text_view(r) == media_url_of(page@),
{
    match first_attribute(page, ".image-view-original-link[href]", "href") {
        Lookup::Value(link) => Ok(link),
        Lookup::NoAttribute => Err(html_scraping("a.href", "danbooru")),
        _ => Err(html_scraping("html.a", "danbooru")),
    }
}

/// Begins the strategy for a post's URL: the first request fetches the page.
pub fn scrape(url: &str) -> (r: Request)
    ensures
        r@ == (RequestView::Page { url: url@, bearer: false }),
{
    Request::Page { url: url.to_owned(), bearer: false }
}

} // verus!
