use vstd::prelude::*;
use crate::error::{html_scraping, missing, text_view, ScrapErr, ScrapErrView};
use crate::markup::{first_attribute, looked_up, Lookup, LookupView};
use crate::protocol::{Request, RequestView};

verus! {

/// The selector of the element that carries an artwork page's metadata.
pub open spec fn selector() -> Seq<char> {
    "#meta-preload-data[content]"@
}

/// The origin that image requests must name as their referer.
pub open spec fn referer() -> Seq<char> {
    "https://www.pixiv.net"@
}

/// The metadata document embedded in an artwork page.
pub open spec fn metadata_of(page: Seq<char>) -> Result<Seq<char>, ScrapErrView> {
    match looked_up(page, selector(), "content"@) {
        LookupView::Value(content) => Ok(content),
        LookupView::NoAttribute => Err(missing("metadata.content"@, "pixiv"@)),
        _ => Err(missing("metadata"@, "pixiv"@)),
    }
}

/// The URL of the original image among those of a page's illustrations: the
/// first one.
pub open spec fn original_of(illusts: Seq<String>) -> Result<Seq<char>, ScrapErrView> {
    if illusts.len() == 0 {
        Err(missing("metadata.content.illust"@, "pixiv.content"@))
    } else {
        Ok(illusts[0]@)
    }
}

/// The request that fetches the original image at `url`.
pub open spec fn download_of(url: Seq<char>) -> RequestView {
    RequestView::Open { url, referer: Some(referer()) }
}

/// Finds the metadata document in an artwork page.
pub fn metadata(page: &str) -> (r: Result<String, ScrapErr>)
    ensures
        text_view(r) == metadata_of(page@),
{
    match first_attribute(page, "#meta-preload-data[content]", "content") {
        Lookup::Value(content) => Ok(content),
        Lookup::NoAttribute => Err(html_scraping("metadata.content", "pixiv")),
        _ => Err(html_scraping("metadata", "pixiv")),
    }
}

/// Picks the URL of the original image from those of a page's illustrations.
pub fn original(illusts: &Vec<String>) -> (r: Result<String, ScrapErr>)
    ensures
        text_view(r) == original_of(illusts@),
{
    if illusts.len() == 0 {
        Err(html_scraping("metadata.content.illust", "pixiv.content"))
    } else {
        Ok(illusts[0].clone())
    }
}

/// The request that fetches the original image: it names the site as referer.
pub fn download(url: String) -> (r: Request)
    ensures
        r@ == download_of(url@),
{
    Request::Open { url, referer: Some("https://www.pixiv.net".to_owned()) }
}

/// Begins the strategy for an artwork's URL: the first request fetches the
/// page.
pub fn scrape(url: &str) -> (r: Request)
    ensures
        r@ == (RequestView::Page { url: url@, bearer: false }),
{
    Request::Page { url: url.to_owned(), bearer: false }
}

} // verus!
