use mediagetter::address::ParsedUrl;
use mediagetter::error::ScrapErr;
use mediagetter::media::Type;
use mediagetter::protocol::Request;
use mediagetter::scraper::twitter::{MediaType, Variant};
use mediagetter::scraper::{danbooru, generic, pixiv, twitter};

fn missing(element: &str, scraper: &str) -> ScrapErr {
    ScrapErr::HtmlScraping { element: element.to_string(), scraper: scraper.to_string() }
}

fn variant(bit_rate: u32, url: &str) -> Variant {
    Variant { bit_rate, url: url.to_string() }
}

#[test]
fn generic_download_media() {
    let video = "https://cdn.discordapp.com/attachments/509982049239564290/1028336757080608830/1665206582990.mp4";
    let image = "https://cdn.discordapp.com/attachments/509982049239564290/1028212859152379955/32f1a2297b08e31a6d374bd57b0deb92.jpg";
    assert_eq!(generic::scrape(video), Request::Open { url: video.to_string(), referer: None });
    assert_eq!(generic::scrape(image), Request::Open { url: image.to_string(), referer: None });
    assert_eq!(generic::classify(video, Some(&b"video/mp4".to_vec())), Ok(Type::Video));
    assert_eq!(generic::classify(image, Some(&b"image/jpeg".to_vec())), Ok(Type::Image));
}

#[test]
fn content_type_decides_the_kind() {
    let url = "https://example.org/x";
    assert_eq!(generic::classify(url, Some(&b"video/webm".to_vec())), Ok(Type::Video));
    assert_eq!(generic::classify(url, Some(&b"video/".to_vec())), Ok(Type::Video));
    assert_eq!(generic::classify(url, Some(&b"video".to_vec())), Ok(Type::Image));
    assert_eq!(generic::classify(url, Some(&b"Video/mp4".to_vec())), Ok(Type::Image));
    assert_eq!(generic::classify(url, Some(&b"application/video/mp4".to_vec())), Ok(Type::Image));
    assert_eq!(generic::classify(url, Some(&b"text/html; charset=utf-8".to_vec())), Ok(Type::Image));
    assert_eq!(generic::classify(url, Some(&b"".to_vec())), Ok(Type::Image));
}

#[test]
fn missing_content_type_cannot_be_classified() {
    let url = "https://example.org/x";
    assert_eq!(generic::classify(url, None), Err(ScrapErr::GuessExt(url.to_string())));
}

#[test]
fn content_type_that_is_no_text_cannot_be_classified() {
    let url = "https://example.org/x";
    for value in [b"video/mp4\n".to_vec(), vec![0x76, 0x69, 0x64, 0x65, 0x6f, 0x2f, 0x7f], vec![0xff], vec![0]] {
        assert_eq!(generic::classify(url, Some(&value)), Err(ScrapErr::GuessExt(url.to_string())));
        assert!(!generic::check_text(&value));
    }
    assert_eq!(generic::classify(url, Some(&b"video/mp4\t; x".to_vec())), Ok(Type::Video));
    assert_eq!(generic::classify(url, Some(&b"image/~ ".to_vec())), Ok(Type::Image));
    assert!(generic::check_text(&vec![9, 32, 126]));
    assert!(generic::check_video(&b"video/".to_vec()));
    assert!(!generic::check_video(&b"video".to_vec()));
}

#[test]
fn danbooru_download_media() {
    let url = "https://danbooru.donmai.us/posts/5634057";
    assert_eq!(danbooru::scrape(url), Request::Page { url: url.to_string(), bearer: false });
}

#[test]
fn danbooru_finds_the_link_to_the_original() {
    let page = "<html><body><a href=\"/other\">x</a>\
        <a class=\"image-view-original-link\" href=\"https://cdn.donmai.us/original/ab/cd/abcd.png\">view</a>\
        <a class=\"image-view-original-link\" href=\"https://cdn.donmai.us/second.png\">again</a>\
        </body></html>";
    assert_eq!(
        danbooru::media_url(page),
        Ok("https://cdn.donmai.us/original/ab/cd/abcd.png".to_string())
    );
}

#[test]
fn danbooru_page_without_the_link_fails() {
    assert_eq!(danbooru::media_url("<html><body><p>nothing</p></body></html>"), Err(missing("html.a", "danbooru")));
    assert_eq!(danbooru::media_url(""), Err(missing("html.a", "danbooru")));
    let without_href = "<a class=\"image-view-original-link\">view</a>";
    assert_eq!(danbooru::media_url(without_href), Err(missing("html.a", "danbooru")));
}

#[test]
fn pixiv_download_media() {
    let url = "https://www.pixiv.net/en/artworks/101779848";
    assert_eq!(pixiv::scrape(url), Request::Page { url: url.to_string(), bearer: false });
}

#[test]
fn pixiv_finds_the_metadata() {
    let page = "<html><head><meta id=\"meta-preload-data\" content='{\"illust\":{}}'></head><body></body></html>";
    assert_eq!(pixiv::metadata(page), Ok("{\"illust\":{}}".to_string()));
}

#[test]
fn pixiv_page_without_metadata_fails() {
    assert_eq!(pixiv::metadata("<html><head></head></html>"), Err(missing("metadata", "pixiv")));
    let without_content = "<html><head><meta id=\"meta-preload-data\"></head></html>";
    assert_eq!(pixiv::metadata(without_content), Err(missing("metadata", "pixiv")));
}

#[test]
fn pixiv_takes_the_first_illustration() {
    let illusts = vec!["https://i.pximg.net/a.png".to_string(), "https://i.pximg.net/b.png".to_string()];
    assert_eq!(pixiv::original(&illusts), Ok("https://i.pximg.net/a.png".to_string()));
    assert_eq!(
        pixiv::original(&Vec::new()),
        Err(missing("metadata.content.illust", "pixiv.content"))
    );
}

#[test]
fn pixiv_download_names_the_site_as_referer() {
    assert_eq!(
        pixiv::download("https://i.pximg.net/a.png".to_string()),
        Request::Open {
            url: "https://i.pximg.net/a.png".to_string(),
            referer: Some("https://www.pixiv.net".to_string()),
        }
    );
}

#[test]
fn twitter_download_media() {
    let image = "https://twitter.com/dog_rates/status/1578145895584911362?s=20&t=7PAtwWBDwS8wjFeisuawMg";
    assert_eq!(
        twitter::scrape(image),
        Ok(Request::Page {
            url: "https://api.twitter.com/2/tweets/1578145895584911362?expansions=attachments.media_keys&media.fields=url,variants".to_string(),
            bearer: true,
        })
    );
    let video = "https://twitter.com/furyofthegodz/status/1578910543439486976?s=20&t=mEdD0Y064M9SDLZHUwJnvw";
    assert_eq!(
        twitter::scrape(video),
        Ok(Request::Page {
            url: "https://api.twitter.com/2/tweets/1578910543439486976?expansions=attachments.media_keys&media.fields=url,variants".to_string(),
            bearer: true,
        })
    );
}

#[test]
fn twitter_refuses_what_is_no_url() {
    assert_eq!(twitter::scrape("status/1"), Err(ScrapErr::UrlParse));
}

#[test]
fn twitter_url_that_cannot_be_a_base_has_no_tweet_id() {
    assert_eq!(twitter::scrape("mailto:someone@example.org"), Err(missing("tweet id", "twitter url")));
}

#[test]
fn last_segment_beyond_the_limit_is_no_tweet_id() {
    let long = format!("https://twitter.com/user/status/{}", "7".repeat(0x10_0001));
    assert_eq!(twitter::scrape(&long), Err(missing("tweet id", "twitter url")));
    let fits = format!("https://twitter.com/user/status/{}", "7".repeat(0x10_0000));
    let expected = format!(
        "https://api.twitter.com/2/tweets/{}?expansions=attachments.media_keys&media.fields=url,variants",
        "7".repeat(0x10_0000)
    );
    assert_eq!(twitter::scrape(&fits), Ok(Request::Page { url: expected, bearer: true }));
}

#[test]
fn last_segment_is_resolved_against_the_endpoint() {
    assert_eq!(
        twitter::scrape("https://twitter.com/user/status/"),
        Ok(Request::Page {
            url: "https://api.twitter.com/2/tweets/?expansions=attachments.media_keys&media.fields=url,variants".to_string(),
            bearer: true,
        })
    );
    assert_eq!(
        twitter::scrape("https://twitter.com/a/b/..%2F7"),
        Ok(Request::Page {
            url: "https://api.twitter.com/2/tweets/..%2F7?expansions=attachments.media_keys&media.fields=url,variants".to_string(),
            bearer: true,
        })
    );
}

#[test]
fn tweet_id_is_the_last_segment() {
    let parts = ParsedUrl {
        domain: Some("twitter.com".to_string()),
        segments: Some(vec!["user".to_string(), "status".to_string(), "42".to_string()]),
    };
    assert_eq!(twitter::tweet_id(&parts), Ok("42".to_string()));
    let bare = ParsedUrl { domain: Some("twitter.com".to_string()), segments: Some(vec!["".to_string()]) };
    assert_eq!(twitter::tweet_id(&bare), Ok("".to_string()));
    let none = ParsedUrl { domain: None, segments: None };
    assert_eq!(twitter::tweet_id(&none), Err(missing("tweet id", "twitter url")));
    let empty = ParsedUrl { domain: None, segments: Some(Vec::new()) };
    assert_eq!(twitter::tweet_id(&empty), Err(missing("tweet id", "twitter url")));
}

#[test]
fn photo_is_downloaded_from_its_url() {
    let media = vec![
        MediaType::Photo { url: "https://pbs.twimg.com/media/a.jpg".to_string() },
        MediaType::Photo { url: "https://pbs.twimg.com/media/b.jpg".to_string() },
    ];
    assert_eq!(twitter::select(&media), Ok(("https://pbs.twimg.com/media/a.jpg".to_string(), Type::Image)));
}

#[test]
fn video_is_downloaded_at_the_highest_bit_rate() {
    let media = vec![MediaType::Video {
        variants: vec![
            variant(0, "https://video.twimg.com/playlist.m3u8"),
            variant(832000, "https://video.twimg.com/480.mp4"),
            variant(2176000, "https://video.twimg.com/720.mp4"),
            variant(256000, "https://video.twimg.com/240.mp4"),
        ],
    }];
    assert_eq!(twitter::select(&media), Ok(("https://video.twimg.com/720.mp4".to_string(), Type::Video)));
}

#[test]
fn first_of_equal_bit_rates_wins() {
    let variants = vec![
        variant(5, "https://v/a"),
        variant(9, "https://v/b"),
        variant(9, "https://v/c"),
        variant(1, "https://v/d"),
    ];
    assert_eq!(twitter::best_variant(&variants), Some(1));
    let media = vec![MediaType::Video { variants }];
    assert_eq!(twitter::select(&media), Ok(("https://v/b".to_string(), Type::Video)));
    let zeros = vec![variant(0, "https://v/x"), variant(0, "https://v/y")];
    assert_eq!(twitter::best_variant(&zeros), Some(0));
    assert_eq!(twitter::best_variant(&vec![variant(u32::MAX, "https://v/z")]), Some(0));
}

#[test]
fn tweet_without_media_fails() {
    assert_eq!(twitter::select(&Vec::new()), Err(missing("tweet.media", "twitter")));
    assert_eq!(twitter::best_variant(&Vec::new()), None);
}

#[test]
fn video_without_variants_fails() {
    let media = vec![MediaType::Video { variants: Vec::new() }];
    assert_eq!(twitter::select(&media), Err(missing("media.url", "twitter.json")));
}
