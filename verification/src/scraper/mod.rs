use vstd::prelude::*;
use crate::address::{parse_url, url_parts};
use crate::error::{ScrapErr, ScrapErrView};
use crate::protocol::{Request, RequestView};
use crate::text::same_text;

pub mod danbooru;
pub mod generic;
pub mod pixiv;
pub mod twitter;

verus! {

/// A site-specific way to get from a post's URL to its media.
#[derive(Debug, Clone, Copy, PartialEq, Eq, Structural)]
pub enum Strategy {
    Generic,
    Danbooru,
    Pixiv,
    Twitter,
}

/// Whether a site-specific strategy exists for the host.
pub open spec fn known_host(host: Seq<char>) -> bool {
    ||| host == "danbooru.donmai.us"@
    ||| host == "pixiv.net"@
    ||| host == "www.pixiv.net"@
    ||| host == "mobile.twitter.com"@
    ||| host == "www.twitter.com"@
}

/// The strategy for a URL with the given domain: that of the site where the
/// domain is one of the table, compared letter for letter, else the generic
/// one.
pub open spec fn strategy_for(domain: Option<Seq<char>>) -> Strategy {
    match domain {
        None => Strategy::Generic,
        Some(host) => if host == "danbooru.donmai.us"@ {
            Strategy::Danbooru
        } else if host == "pixiv.net"@ || host == "www.pixiv.net"@ {
            Strategy::Pixiv
        } else if host == "mobile.twitter.com"@ || host == "www.twitter.com"@ {
            Strategy::Twitter
        } else {
            Strategy::Generic
        },
    }
}

/// The strategy that a URL is routed to; an error where the text is no
/// absolute URL.
pub open spec fn routed(url: Seq<char>) -> Result<Strategy, ScrapErrView> {
    match url_parts(url) {
        None => Err(ScrapErrView::UrlParse),
        Some(parts) => Ok(strategy_for(parts.domain)),
    }
}

/// The strategy and first request for a URL.
pub open spec fn started(url: Seq<char>) -> Result<(Strategy, RequestView), ScrapErrView> {
    match routed(url) {
        Err(e) => Err(e),
        Ok(Strategy::Generic) => Ok(
            (Strategy::Generic, RequestView::Open { url, referer: None }),
        ),
        Ok(Strategy::Danbooru) => Ok(
            (Strategy::Danbooru, RequestView::Page { url, bearer: false }),
        ),
        Ok(Strategy::Pixiv) => Ok((Strategy::Pixiv, RequestView::Page { url, bearer: false })),
        Ok(Strategy::Twitter) => match twitter::first_request(url) {
            Ok(request) => Ok((Strategy::Twitter, request)),
            Err(e) => Err(e),
        },
    }
}

/// The mathematical value of what `route` returns.
pub open spec fn route_view(r: Result<Strategy, ScrapErr>) -> Result<Strategy, ScrapErrView> {
    match r {
        Ok(strategy) => Ok(strategy),
        Err(e) => Err(e@),
    }
}

/// The mathematical value of what `scrape` returns.
pub open spec fn start_view(r: Result<(Strategy, Request), ScrapErr>) -> Result<
    (Strategy, RequestView),
    ScrapErrView,
> {
    match r {
        Ok((strategy, request)) => Ok((strategy, request@)),
        Err(e) => Err(e@),
    }
}

/// A URL on the image board's host is routed to its strategy, and one on a
/// host outside the table to the generic strategy.
pub proof fn lemma_dispatch(host: Seq<char>)
    ensures
        host == "danbooru.donmai.us"@ ==> strategy_for(Some(host)) == Strategy::Danbooru,
        !known_host(host) ==> strategy_for(Some(host)) == Strategy::Generic,
        strategy_for(None) == Strategy::Generic,
{
}

/// Selects the strategy for a domain.
pub fn dispatch(domain: Option<&str>) -> (r: Strategy)
    ensures
        r == strategy_for(
            match domain {
                Some(host) => Some(host@),
                None => None,
            },
        ),
{
    match domain {
        None => Strategy::Generic,
        Some(host) => if same_text(host, "danbooru.donmai.us") {
            Strategy::Danbooru
        } else if same_text(host, "pixiv.net") || same_text(host, "www.pixiv.net") {
            Strategy::Pixiv
        } else if same_text(host, "mobile.twitter.com") || same_text(host, "www.twitter.com") {
            Strategy::Twitter
        } else {
            Strategy::Generic
        },
    }
}

/// Routes a URL to a strategy by its host.
pub fn route(url: &str) -> (r: Result<Strategy, ScrapErr>)
    ensures
        route_view(r) == routed(url@),
{
    match parse_url(url) {
        Err(_) => Err(ScrapErr::UrlParse),
        Ok(parts) => match &parts.domain {
            Some(host) => Ok(dispatch(Some(host.as_str()))),
            None => Ok(dispatch(None)),
        },
    }
}

/// Begins the work on a URL: routes it and asks for what its strategy needs
/// first.
pub fn scrape(url: &str) -> (r: Result<(Strategy, Request), ScrapErr>)
    ensures
        start_view(r) == started(url@),
{
    match route(url) {
        Err(e) => Err(e),
        Ok(Strategy::Generic) => Ok((Strategy::Generic, generic::scrape(url))),
        Ok(Strategy::Danbooru) => Ok((Strategy::Danbooru, danbooru::scrape(url))),
        Ok(Strategy::Pixiv) => Ok((Strategy::Pixiv, pixiv::scrape(url))),
        Ok(Strategy::Twitter) => match twitter::scrape(url) {
            Ok(request) => Ok((Strategy::Twitter, request)),
            Err(e) => Err(e),
        },
    }
}

} // verus!
