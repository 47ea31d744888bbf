use vstd::prelude::*;

verus! {

/// Why a strategy could not stage the media behind a URL.
#[derive(Debug, PartialEq, Eq)]
pub enum ScrapErr {
    /// A request failed in transport.
    Request,
    /// A fetched page or document lacks the structure the strategy looks for.
    HtmlScraping { element: String, scraper: String },
    /// A document that should be JSON could not be read as such.
    JsonParse,
    /// Staging I/O failed.
    FileSystem,
    /// The text is not an absolute URL.
    UrlParse,
    /// The response does not say what kind of media it carries.
    GuessExt(String),
}

/// The mathematical value of a [`ScrapErr`].
pub enum ScrapErrView {
    Request,
    HtmlScraping { element: Seq<char>, scraper: Seq<char> },
    JsonParse,
    FileSystem,
    UrlParse,
    GuessExt(Seq<char>),
}

impl View for ScrapErr {
    type V = ScrapErrView;

    open spec fn view(&self) -> ScrapErrView {
        match *self {
            ScrapErr::Request => ScrapErrView::Request,
            ScrapErr::HtmlScraping { element, scraper } => ScrapErrView::HtmlScraping {
                element: element@,
                scraper: scraper@,
            },
            ScrapErr::JsonParse => ScrapErrView::JsonParse,
            ScrapErr::FileSystem => ScrapErrView::FileSystem,
            ScrapErr::UrlParse => ScrapErrView::UrlParse,
            ScrapErr::GuessExt(text) => ScrapErrView::GuessExt(text@),
        }
    }
}

/// The error of an extraction: `element` was not found by the strategy `scraper`.
pub open spec fn missing(element: Seq<char>, scraper: Seq<char>) -> ScrapErrView {
    ScrapErrView::HtmlScraping { element, scraper }
}

/// Builds the error for a missing `element` in what `scraper` fetched.
pub fn html_scraping(element: &str, scraper: &str) -> (e: ScrapErr)
    ensures
        e@ == missing(element@, scraper@),
{
    ScrapErr::HtmlScraping { element: element.to_owned(), scraper: scraper.to_owned() }
}

/// The mathematical value of a text that may have failed to come about.
pub open spec fn text_view(r: Result<String, ScrapErr>) -> Result<Seq<char>, ScrapErrView> {
    match r {
        Ok(text) => Ok(text@),
        Err(e) => Err(e@),
    }
}

/// Why a submission did not end in stored media.
#[derive(Debug, PartialEq, Eq)]
pub enum AppErr {
    /// The strategy failed.
    Scrape(ScrapErr),
    /// Reading, writing, copying or measuring a file failed.
    FileIO,
    /// The staged bytes are not an image that can be decoded and stored.
    Image,
    /// The store already holds this image at no lower resolution.
    BetterImage { old: (u32, u32), new: (u32, u32) },
}

/// The mathematical value of an [`AppErr`].
pub enum AppErrView {
    Scrape(ScrapErrView),
    FileIO,
    Image,
    BetterImage { old: (u32, u32), new: (u32, u32) },
}

impl View for AppErr {
    type V = AppErrView;

    open spec fn view(&self) -> AppErrView {
        match *self {
            AppErr::Scrape(e) => AppErrView::Scrape(e@),
            AppErr::FileIO => AppErrView::FileIO,
            AppErr::Image => AppErrView::Image,
            AppErr::BetterImage { old, new } => AppErrView::BetterImage { old, new },
        }
    }
}

} // verus!
