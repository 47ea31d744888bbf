use vstd::prelude::*;
use crate::error::{ScrapErr, ScrapErrView};
use crate::media::Type;
use crate::protocol::{Request, RequestView};

verus! {

/// Whether a byte of a header's value belongs to text: visible ASCII, a
/// space or a tab.
pub open spec fn is_visible(byte: u8) -> bool {
    (32 <= byte && byte < 127) || byte == 9
}

/// Whether a header's value is text.
pub open spec fn is_text(value: Seq<u8>) -> bool {
    forall|i: int| 0 <= i < value.len() ==> is_visible(#[trigger] value[i])
}

/// The bytes of `video/`, the top-level type of a video's content type.
pub open spec fn video_marker() -> Seq<u8> {
    seq![0x76u8, 0x69u8, 0x64u8, 0x65u8, 0x6fu8, 0x2fu8]
}

/// Whether a header's value begins with `video/`.
pub open spec fn names_video(value: Seq<u8>) -> bool {
    value.len() >= 6 && value.subrange(0, 6) == video_marker()
}

/// The kind of media that a response with the given value of its content
/// type header carries: a video where the value begins with `video/`, else
/// an image. Without the header, or with a value that is not text, the media
/// cannot be classified.
pub open spec fn classified(url: Seq<char>, content_type: Option<Seq<u8>>) -> Result<
    Type,
    ScrapErrView,
> {
    match content_type {
        Some(value) if is_text(value) => if names_video(value) {
            Ok(Type::Video)
        } else {
            Ok(Type::Image)
        },
        _ => Err(ScrapErrView::GuessExt(url)),
    }
}

/// The mathematical value of what `classify` returns.
pub open spec fn kind_view(r: Result<Type, ScrapErr>) -> Result<Type, ScrapErrView> {
    match r {
        Ok(kind) => Ok(kind),
        Err(e) => Err(e@),
    }
}

/// The mathematical value of a header's value that may be absent.
pub open spec fn header_view(content_type: Option<&Vec<u8>>) -> Option<Seq<u8>> {
    match content_type {
        Some(value) => Some(value@),
        None => None,
    }
}

/// Whether a header's value is text.
pub fn check_text(value: &Vec<u8>) -> (r: bool)
    ensures
        r == is_text(value@),
{
    let mut i: usize = 0;
    while i < value.len()
        invariant
            i <= value.len(),
            forall|j: int| 0 <= j < i ==> is_visible(#[trigger] value@[j]),
        decreases value.len() - i,
    {
        let byte: u8 = value[i];
        if !((32 <= byte && byte < 127) || byte == 9) {
            assert(!is_visible(value@[i as int]));
            return false;
        }
        i += 1;
    }
    true
}

/// Whether a header's value begins with `video/`.
pub fn check_video(value: &Vec<u8>) -> (r: bool)
    ensures
        r == names_video(value@),
{
    if value.len() < 6 {
        return false;
    }
    let found = value[0] == 0x76 && value[1] == 0x69 && value[2] == 0x64 && value[3] == 0x65
        && value[4] == 0x6f && value[5] == 0x2f;
    proof {
        let head = value@.subrange(0, 6);
        if found {
            assert(head =~= video_marker());
        } else {
            assert(head[0] == value@[0] && head[1] == value@[1] && head[2] == value@[2]);
            assert(head[3] == value@[3] && head[4] == value@[4] && head[5] == value@[5]);
        }
    }
    found
}

/// Classifies the response to a GET of `url` by the value of its content
/// type header.
pub fn classify(url: &str, content_type: Option<&Vec<u8>>) -> (r: Result<Type, ScrapErr>)
    ensures
        kind_view(r) == classified(url@, header_view(content_type)),
{
    match content_type {
        Some(value) => if !check_text(value) {
            Err(ScrapErr::GuessExt(url.to_owned()))
        } else if check_video(value) {
            Ok(Type::Video)
        } else {
            Ok(Type::Image)
        },
        None => Err(ScrapErr::GuessExt(url.to_owned())),
    }
}

/// Begins the strategy for a URL that points at the media itself: the first
/// request opens it.
pub fn scrape(url: &str) -> (r: Request)
    ensures
        r@ == (RequestView::Open { url: url@, referer: None }),
{
    Request::Open { url: url.to_owned(), referer: None }
}

} // verus!
