use vstd::prelude::*;
use vstd::string::*;
use crate::address::{parse_url, resolve, resolved, url_parts, ParsedUrl, UrlParts, TEXT_LIMIT};
use crate::error::{html_scraping, missing, ScrapErr, ScrapErrView};
use crate::media::Type;
use crate::protocol::{Request, RequestView};

verus! {

/// One encoding of a tweet's video.
#[derive(Debug, PartialEq, Eq)]
pub struct Variant {
    /// Its bit rate; 0 where the lookup names none.
    pub bit_rate: u32,
    pub url: String,
}

/// One item of media attached to a tweet.
#[derive(Debug, PartialEq, Eq)]
pub enum MediaType {
    Photo { url: String },
    Video { variants: Vec<Variant> },
}

/// The endpoint that looks a tweet up; the tweet's identifier is resolved
/// against it.
pub open spec fn endpoint() -> Seq<char> {
    "https://api.twitter.com/2/tweets/"@
}

/// The query that asks the lookup for the attached media.
pub open spec fn expansions() -> Seq<char> {
    "expansions=attachments.media_keys&media.fields=url,variants"@
}

/// Whether `variants[i]` has the highest bit rate and is the first to have it.
pub open spec fn is_best(variants: Seq<Variant>, i: int) -> bool {
    &&& 0 <= i < variants.len()
    &&& forall|j: int| 0 <= j < variants.len() ==> variants[j].bit_rate <= variants[i].bit_rate
    &&& forall|j: int| 0 <= j < i ==> variants[j].bit_rate < variants[i].bit_rate
}

/// The index of the variant to download.
pub open spec fn best(variants: Seq<Variant>) -> int {
    choose|i: int| is_best(variants, i)
}

/// The identifier of the tweet that a URL names: the last segment of its path.
pub open spec fn tweet_id_of(parts: UrlParts) -> Result<Seq<char>, ScrapErrView> {
    match parts.last_segment() {
        Some(segment) => Ok(segment),
        None => Err(missing("tweet id"@, "twitter url"@)),
    }
}

/// The URL of the lookup for the tweet that `url` names. A last segment
/// beyond the limit of what can be resolved is no identifier.
pub open spec fn lookup_url(url: Seq<char>) -> Result<Seq<char>, ScrapErrView> {
    match url_parts(url) {
        None => Err(ScrapErrView::UrlParse),
        Some(parts) => match tweet_id_of(parts) {
            Err(e) => Err(e),
            Ok(id) => if id.len() > TEXT_LIMIT {
                Err(missing("tweet id"@, "twitter url"@))
            } else {
                match resolved(endpoint(), id, expansions()) {
                    None => Err(ScrapErrView::UrlParse),
                    Some(api) => Ok(api),
                }
            },
        },
    }
}

/// What to download for a tweet with the attached `media`: the URL of the
/// first item where it is a photo, that of its best variant where it is a
/// video.
pub open spec fn chosen(media: Seq<MediaType>) -> Result<(Seq<char>, Type), ScrapErrView> {
    if media.len() == 0 {
        Err(missing("tweet.media"@, "twitter"@))
    } else {
        match media[0] {
            MediaType::Photo { url } => Ok((url@, Type::Image)),
            MediaType::Video { variants } => if variants@.len() == 0 {
                Err(missing("media.url"@, "twitter.json"@))
            } else {
                Ok((variants@[best(variants@)].url@, Type::Video))
            },
        }
    }
}

/// The mathematical value of what `select` returns.
pub open spec fn choice_view(r: Result<(String, Type), ScrapErr>) -> Result<
    (Seq<char>, Type),
    ScrapErrView,
> {
    match r {
        Ok((url, kind)) => Ok((url@, kind)),
        Err(e) => Err(e@),
    }
}

/// The mathematical value of a request that may have failed.
pub open spec fn request_view(r: Result<Request, ScrapErr>) -> Result<RequestView, ScrapErrView> {
    match r {
        Ok(request) => Ok(request@),
        Err(e) => Err(e@),
    }
}

/// The first request of the strategy, as a function of the URL.
pub open spec fn first_request(url: Seq<char>) -> Result<RequestView, ScrapErrView> {
    match lookup_url(url) {
        Ok(api) => Ok(RequestView::Page { url: api, bearer: true }),
        Err(e) => Err(e),
    }
}

/// Only one variant is the first of the highest bit rate.
pub proof fn lemma_best_unique(variants: Seq<Variant>, i: int)
    requires
        is_best(variants, i),
    ensures
        best(variants) == i,
{
    let b = best(variants);
    assert(is_best(variants, b));
    if b < i {
        assert(variants[b].bit_rate < variants[i].bit_rate);
    }
    if i < b {
        assert(variants[i].bit_rate < variants[b].bit_rate);
    }
}

/// Among the variants of one bit rate, the one that comes first is chosen; no
/// variant of a higher bit rate exists.
pub proof fn lemma_best_is_first_maximum(variants: Seq<Variant>, j: int)
    requires
        0 <= j < variants.len(),
    ensures
        is_best(variants, best(variants)),
        variants[j].bit_rate <= variants[best(variants)].bit_rate,
        variants[j].bit_rate == variants[best(variants)].bit_rate ==> best(variants) <= j,
{
    lemma_best_exists(variants);
}

/// Every non-empty list of variants has a best one.
pub proof fn lemma_best_exists(variants: Seq<Variant>)
    requires
        variants.len() > 0,
    ensures
        is_best(variants, best(variants)),
    decreases variants.len(),
{
    if variants.len() == 1 {
        assert(is_best(variants, 0));
    } else {
        let front = variants.drop_last();
        lemma_best_exists(front);
        let b = best(front);
        let n = variants.len() - 1;
        assert(forall|j: int| 0 <= j < n ==> front[j] == variants[j]);
        if variants[n].bit_rate > variants[b].bit_rate {
            assert(is_best(variants, n)) by {
                assert forall|j: int| 0 <= j < n implies variants[j].bit_rate
                    < variants[n].bit_rate by {
                    assert(front[j].bit_rate <= front[b].bit_rate);
                }
            }
        } else {
            assert(is_best(variants, b)) by {
                assert forall|j: int| 0 <= j < variants.len() implies variants[j].bit_rate
                    <= variants[b].bit_rate by {
                    if j < n {
                        assert(front[j].bit_rate <= front[b].bit_rate);
                    }
                }
                assert forall|j: int| 0 <= j < b implies variants[j].bit_rate
                    < variants[b].bit_rate by {
                    assert(front[j].bit_rate < front[b].bit_rate);
                }
            }
        }
    }
}

/// The index of the variant with the highest bit rate, the first of them
/// where several have it; `None` where there is no variant.
pub fn best_variant(variants: &Vec<Variant>) -> (r: Option<usize>)
    ensures
        variants@.len() == 0 <==> r is None,
        r matches Some(i) ==> is_best(variants@, i as int) && i as int == best(variants@),
{
    if variants.len() == 0 {
        return None;
    }
    let mut at: usize = 0;
    let mut i: usize = 1;
    while i < variants.len()
        invariant
            0 <= at < i <= variants.len(),
            forall|j: int| 0 <= j < i ==> variants@[j].bit_rate <= variants@[at as int].bit_rate,
            forall|j: int| 0 <= j < at ==> variants@[j].bit_rate < variants@[at as int].bit_rate,
        decreases variants.len() - i,
    {
        if variants[i].bit_rate > variants[at].bit_rate {
            at = i;
        }
        i += 1;
    }
    proof {
        lemma_best_unique(variants@, at as int);
    }
    Some(at)
}

/// Chooses what to download for a tweet from its attached media.
pub fn select(media: &Vec<MediaType>) -> (r: Result<(String, Type), ScrapErr>)
    ensures
        choice_view(r) == chosen(media@),
{
    if media.len() == 0 {
        return Err(html_scraping("tweet.media", "twitter"));
    }
    match &media[0] {
        MediaType::Photo { url } => Ok((url.clone(), Type::Image)),
        MediaType::Video { variants } => match best_variant(variants) {
            None => Err(html_scraping("media.url", "twitter.json")),
            Some(i) => Ok((variants[i].url.clone(), Type::Video)),
        },
    }
}

/// The identifier of the tweet that a parsed URL names.
pub fn tweet_id(parts: &ParsedUrl) -> (r: Result<String, ScrapErr>)
    ensures
        crate::error::text_view(r) == tweet_id_of(parts@),
{
    match parts.last_segment() {
        Some(segment) => Ok(segment.clone()),
        None => Err(html_scraping("tweet id", "twitter url")),
    }
}

/// Begins the strategy for a tweet's URL: where the tweet's identifier can be
/// read from it, the first request is the lookup of the tweet, made with the
/// bearer credential.
pub fn scrape(url: &str) -> (r: Result<Request, ScrapErr>)
    ensures
        request_view(r) == first_request(url@),
{
    let parts = match parse_url(url) {
        Ok(parts) => parts,
        Err(_) => return Err(ScrapErr::UrlParse),
    };
    let id = match tweet_id(&parts) {
        Ok(id) => id,
        Err(e) => return Err(e),
    };
    if id.as_str().unicode_len() > TEXT_LIMIT {
        return Err(html_scraping("tweet id", "twitter url"));
    }
    proof {
        reveal_strlit("https://api.twitter.com/2/tweets/");
        reveal_strlit("expansions=attachments.media_keys&media.fields=url,variants");
    }
    match resolve(
        "https://api.twitter.com/2/tweets/",
        id.as_str(),
        "expansions=attachments.media_keys&media.fields=url,variants",
    ) {
        Ok(api) => Ok(Request::Page { url: api, bearer: true }),
        Err(_) => Err(ScrapErr::UrlParse),
    }
}

} // verus!
