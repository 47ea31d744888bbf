use mediagetter::error::ScrapErr;
use mediagetter::protocol::Request;
use mediagetter::scraper::{dispatch, route, scrape, Strategy};

#[test]
fn danbooru_host_is_routed_to_danbooru() {
    assert_eq!(route("https://danbooru.donmai.us/posts/5634057"), Ok(Strategy::Danbooru));
    assert_eq!(dispatch(Some("danbooru.donmai.us")), Strategy::Danbooru);
}

#[test]
fn unknown_host_is_routed_to_generic() {
    assert_eq!(route("https://cdn.discordapp.com/attachments/1/2/3.mp4"), Ok(Strategy::Generic));
    assert_eq!(dispatch(Some("example.org")), Strategy::Generic);
    assert_eq!(dispatch(Some("danbooru.donmai.com")), Strategy::Generic);
}

#[test]
fn every_host_of_the_table_has_its_strategy() {
    assert_eq!(dispatch(Some("pixiv.net")), Strategy::Pixiv);
    assert_eq!(dispatch(Some("www.pixiv.net")), Strategy::Pixiv);
    assert_eq!(dispatch(Some("mobile.twitter.com")), Strategy::Twitter);
    assert_eq!(dispatch(Some("www.twitter.com")), Strategy::Twitter);
}

#[test]
fn hosts_are_compared_letter_for_letter() {
    assert_eq!(dispatch(Some("Danbooru.donmai.us")), Strategy::Generic);
    assert_eq!(dispatch(Some("twitter.com")), Strategy::Generic);
    assert_eq!(dispatch(Some("pixiv.net.")), Strategy::Generic);
    assert_eq!(dispatch(Some("")), Strategy::Generic);
}

#[test]
fn url_without_a_domain_is_routed_to_generic() {
    assert_eq!(dispatch(None), Strategy::Generic);
    assert_eq!(route("https://127.0.0.1/a.png"), Ok(Strategy::Generic));
    assert_eq!(route("data:text/plain,hello"), Ok(Strategy::Generic));
}

#[test]
fn parsing_lowers_the_case_of_the_host() {
    assert_eq!(route("https://WWW.PIXIV.NET/en/artworks/1"), Ok(Strategy::Pixiv));
}

#[test]
fn text_that_is_no_url_is_refused() {
    assert_eq!(route("not a url"), Err(ScrapErr::UrlParse));
    assert_eq!(route(""), Err(ScrapErr::UrlParse));
    assert_eq!(route("/posts/1"), Err(ScrapErr::UrlParse));
    assert_eq!(scrape("not a url"), Err(ScrapErr::UrlParse));
}

#[test]
fn mod_download_media() {
    let url = "https://mobile.twitter.com/dog_rates/status/1578145895584911362?s=20&t=7PAtwWBDwS8wjFeisuawMg";
    let (strategy, request) = scrape(url).unwrap();
    assert_eq!(strategy, Strategy::Twitter);
    assert_eq!(
        request,
        Request::Page {
            url: "https://api.twitter.com/2/tweets/1578145895584911362?expansions=attachments.media_keys&media.fields=url,variants".to_string(),
            bearer: true,
        }
    );
}

#[test]
fn scrape_starts_each_strategy_with_its_first_request() {
    let generic = "https://example.org/a.png";
    assert_eq!(
        scrape(generic),
        Ok((Strategy::Generic, Request::Open { url: generic.to_string(), referer: None }))
    );
    let pixiv = "https://www.pixiv.net/en/artworks/101779848";
    assert_eq!(
        scrape(pixiv),
        Ok((Strategy::Pixiv, Request::Page { url: pixiv.to_string(), bearer: false }))
    );
    let danbooru = "https://danbooru.donmai.us/posts/5634057";
    assert_eq!(
        scrape(danbooru),
        Ok((Strategy::Danbooru, Request::Page { url: danbooru.to_string(), bearer: false }))
    );
}
