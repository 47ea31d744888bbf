use vstd::prelude::*;
use crate::commit::{canonical_image_path, canonical_video_path, decide, image_path, verdict, video_path};
use crate::error::{AppErr, AppErrView, ScrapErr, ScrapErrView};
use crate::imaging::{
    decode, decodes, dimensions, dimensions_of, gradient_hash, gradient_hash_of, png_of, to_png,
    Bitmap,
};
use crate::media::{Folder, Media, MediaView, Type};
use crate::protocol::{Fault, Reply, Request, RequestView};
use crate::report::{reported, MediaInfo, MediaInfoView};
use crate::scraper::{danbooru, generic, pixiv, twitter, Strategy};
use crate::paths::join;
use crate::staging::{allocate, is_uuid_text, stage, staged};

verus! {

/// The width of the perceptual hash's grid.
pub const HASH_WIDTH: u32 = 8;

/// The height of the perceptual hash's grid.
pub const HASH_HEIGHT: u32 = 8;

/// Where a job stands: which reply it waits for, and what it has learnt.
#[derive(Debug)]
pub enum Stage {
    /// Waits for the page of a post.
    DanbooruPage,
    /// Waits for the page of an artwork.
    PixivPage,
    /// Waits for the illustrations that the page's metadata names.
    PixivMeta,
    /// Waits for the answer of the tweet lookup.
    TweetText,
    /// Waits for the media that the answer names.
    TweetMedia,
    /// Waits for the response to the request for the media at `url`; `fixed`
    /// is the kind of the media where the strategy knows it already.
    Header { url: String, fixed: Option<Type> },
    /// Waits for the body of the response from `source` to be written to the
    /// staging file.
    Saving { media: Media, source: String },
    /// Waits for the staged bytes of an image.
    Reading,
    /// Waits, inside the exclusive section of `path`, for the dimensions of
    /// what the store holds there.
    Probing { image: Bitmap, path: String },
    /// Waits, inside the exclusive section of `path`, for the image to be
    /// written there.
    Writing { path: String },
    /// Waits for the staged video to be copied to `to`.
    Moving { to: String },
    /// Waits for the size of the stored file.
    Measuring { kind: Type },
    /// Waits for a last request to end, then fails with `error`.
    Failing { error: AppErr },
}

/// The mathematical value of a [`Stage`].
pub enum StageView {
    DanbooruPage,
    PixivPage,
    PixivMeta,
    TweetText,
    TweetMedia,
    Header { url: Seq<char>, fixed: Option<Type> },
    Saving { media: MediaView, source: Seq<char> },
    Reading,
    Probing { image: Seq<u8>, path: Seq<char> },
    Writing { path: Seq<char> },
    Moving { to: Seq<char> },
    Measuring { kind: Type },
    Failing { error: AppErrView },
}

impl View for Stage {
    type V = StageView;

    open spec fn view(&self) -> StageView {
        match *self {
            Stage::DanbooruPage => StageView::DanbooruPage,
            Stage::PixivPage => StageView::PixivPage,
            Stage::PixivMeta => StageView::PixivMeta,
            Stage::TweetText => StageView::TweetText,
            Stage::TweetMedia => StageView::TweetMedia,
            Stage::Header { url, fixed } => StageView::Header { url: url@, fixed },
            Stage::Saving { media, source } => StageView::Saving { media: media@, source: source@ },
            Stage::Reading => StageView::Reading,
            Stage::Probing { image, path } => StageView::Probing { image: image@, path: path@ },
            Stage::Writing { path } => StageView::Writing { path: path@ },
            Stage::Moving { to } => StageView::Moving { to: to@ },
            Stage::Measuring { kind } => StageView::Measuring { kind },
            Stage::Failing { error } => StageView::Failing { error: error@ },
        }
    }
}

/// One submission on its way from a URL to stored media.
#[derive(Debug)]
pub struct Job {
    /// The root directory of the store.
    pub root: String,
    /// The folder that the media is filed under.
    pub folder: Folder,
    /// The path in the scratch directory that the job stages its payload at.
    pub slot: String,
    pub stage: Stage,
}

/// The mathematical value of a [`Job`].
pub struct JobView {
    pub root: Seq<char>,
    pub folder: Folder,
    pub slot: Seq<char>,
    pub stage: StageView,
}

impl View for Job {
    type V = JobView;

    open spec fn view(&self) -> JobView {
        JobView { root: self.root@, folder: self.folder, slot: self.slot@, stage: self.stage@ }
    }
}

impl JobView {
    /// The same job at another stage.
    pub open spec fn at(self, stage: StageView) -> JobView {
        JobView { root: self.root, folder: self.folder, slot: self.slot, stage }
    }
}

/// What a job comes to at each step: a request to its driver, or its end.
#[derive(Debug)]
pub enum Step {
    /// The driver carries out the request and hands the reply to
    /// `Job::advance`.
    Ask(Job, Request),
    /// The job is over.
    Done(Result<MediaInfo, AppErr>),
}

/// The mathematical value of a [`Step`].
pub enum StepView {
    Ask(JobView, RequestView),
    Done(Result<MediaInfoView, AppErrView>),
}

impl View for Step {
    type V = StepView;

    open spec fn view(&self) -> StepView {
        match *self {
            Step::Ask(job, request) => StepView::Ask(job@, request@),
            Step::Done(Ok(info)) => StepView::Done(Ok(info@)),
            Step::Done(Err(error)) => StepView::Done(Err(error@)),
        }
    }
}

/// The fault that a reply reports; `natural` where the reply is not a report
/// of a fault but does not answer the request either.
pub open spec fn fault_of(reply: Reply, natural: Fault) -> Fault {
    match reply {
        Reply::Failed(fault) => fault,
        _ => natural,
    }
}

/// The strategy's error for a fault.
pub open spec fn scrape_error(fault: Fault) -> ScrapErrView {
    match fault {
        Fault::Network => ScrapErrView::Request,
        Fault::Storage => ScrapErrView::FileSystem,
        Fault::Document => ScrapErrView::JsonParse,
    }
}

/// The error of a job whose strategy met a fault.
pub open spec fn fault_error(reply: Reply, natural: Fault) -> AppErrView {
    AppErrView::Scrape(scrape_error(fault_of(reply, natural)))
}

/// The end of a job whose strategy failed with `e`.
pub open spec fn stop(e: ScrapErrView) -> StepView {
    StepView::Done(Err(AppErrView::Scrape(e)))
}

/// The step that asks for the media at `url`.
pub open spec fn fetch(job: JobView, url: Seq<char>, fixed: Option<Type>, request: RequestView) -> StepView {
    StepView::Ask(job.at(StageView::Header { url, fixed }), request)
}

/// The first step of a job for `url`.
pub open spec fn begun(url: Seq<char>, folder: Folder, root: Seq<char>, slot: Seq<char>) -> StepView {
    let job = JobView { root, folder, slot, stage: StageView::Reading };
    match crate::scraper::started(url) {
        Err(e) => stop(e),
        Ok((Strategy::Generic, request)) => fetch(job, url, None, request),
        Ok((Strategy::Danbooru, request)) => StepView::Ask(job.at(StageView::DanbooruPage), request),
        Ok((Strategy::Pixiv, request)) => StepView::Ask(job.at(StageView::PixivPage), request),
        Ok((Strategy::Twitter, request)) => StepView::Ask(job.at(StageView::TweetText), request),
    }
}

/// The step after the page of a post.
pub open spec fn after_danbooru_page(job: JobView, reply: Reply) -> StepView {
    match reply {
        Reply::Text(page) => match danbooru::media_url_of(page@) {
            Err(e) => stop(e),
            Ok(url) => fetch(job, url, None, RequestView::Open { url, referer: None }),
        },
        _ => StepView::Done(Err(fault_error(reply, Fault::Network))),
    }
}

/// The step after the page of an artwork.
pub open spec fn after_pixiv_page(job: JobView, reply: Reply) -> StepView {
    match reply {
        Reply::Text(page) => match pixiv::metadata_of(page@) {
            Err(e) => stop(e),
            Ok(json) => StepView::Ask(
                job.at(StageView::PixivMeta),
                RequestView::DecodeIllusts { json },
            ),
        },
        _ => StepView::Done(Err(fault_error(reply, Fault::Network))),
    }
}

/// The step after the illustrations of an artwork.
pub open spec fn after_pixiv_meta(job: JobView, reply: Reply) -> StepView {
    match reply {
        Reply::Illusts(illusts) => match pixiv::original_of(illusts@) {
            Err(e) => stop(e),
            Ok(url) => fetch(job, url, Some(Type::Image), pixiv::download_of(url)),
        },
        _ => StepView::Done(Err(fault_error(reply, Fault::Document))),
    }
}

/// The step after the answer of the tweet lookup.
pub open spec fn after_tweet_text(job: JobView, reply: Reply) -> StepView {
    match reply {
        Reply::Text(json) => StepView::Ask(
            job.at(StageView::TweetMedia),
            RequestView::DecodeTweet { json: json@ },
        ),
        _ => StepView::Done(Err(fault_error(reply, Fault::Network))),
    }
}

/// The step after the media of a tweet.
pub open spec fn after_tweet_media(job: JobView, reply: Reply) -> StepView {
    match reply {
        Reply::Tweet(media) => match twitter::chosen(media@) {
            Err(e) => stop(e),
            Ok((url, kind)) => fetch(job, url, Some(kind), RequestView::Open { url, referer: None }),
        },
        _ => StepView::Done(Err(fault_error(reply, Fault::Document))),
    }
}

/// The kind of the media behind `url`: the one that the strategy fixed, else
/// the one that the content type stands for.
pub open spec fn kind_of(url: Seq<char>, fixed: Option<Type>, content_type: Option<Vec<u8>>) -> Result<
    Type,
    ScrapErrView,
> {
    match fixed {
        Some(kind) => Ok(kind),
        None => generic::classified(
            url,
            match content_type {
                Some(value) => Some(value@),
                None => None,
            },
        ),
    }
}

/// The step after the response for the media: the body goes to the job's
/// slot, with the video extension where the content type decided the kind.
pub open spec fn after_header(job: JobView, url: Seq<char>, fixed: Option<Type>, reply: Reply) -> StepView {
    match reply {
        Reply::Opened(content_type) => match kind_of(url, fixed, content_type) {
            Err(e) => stop(e),
            Ok(kind) => {
                let media = staged(job.slot, kind, fixed is None);
                StepView::Ask(
                    job.at(StageView::Saving { media, source: url }),
                    RequestView::Save { path: media.location },
                )
            },
        },
        _ => StepView::Done(Err(fault_error(reply, Fault::Network))),
    }
}

/// The step after the body was to be staged: an image is taken from the
/// staging file, a video is moved to its place in the store under the file
/// name of the URL it came from, and a staging file that could not be written
/// is discarded.
pub open spec fn after_saving(
    job: JobView,
    media: MediaView,
    source: Seq<char>,
    reply: Reply,
) -> StepView {
    match reply {
        Reply::Done => match media.kind {
            Type::Image => StepView::Ask(
                job.at(StageView::Reading),
                RequestView::Take { path: media.location },
            ),
            Type::Video => {
                let to = video_path(job.root, job.folder, source);
                StepView::Ask(
                    job.at(StageView::Moving { to }),
                    RequestView::Move { from: media.location, to },
                )
            },
        },
        _ => StepView::Ask(
            job.at(StageView::Failing { error: fault_error(reply, Fault::Storage) }),
            RequestView::Discard { path: media.location },
        ),
    }
}

/// The step for the staged bytes of an image: they must decode to an image
/// that is not empty, whose perceptual hash then names the path to probe.
pub open spec fn inspected(job: JobView, bytes: Seq<u8>) -> StepView {
    if !decodes(bytes) || dimensions_of(bytes).0 == 0 || dimensions_of(bytes).1 == 0 {
        StepView::Done(Err(AppErrView::Image))
    } else {
        let path = image_path(
            job.root,
            job.folder,
            gradient_hash_of(bytes, HASH_WIDTH, HASH_HEIGHT),
        );
        StepView::Ask(
            job.at(StageView::Probing { image: bytes, path }),
            RequestView::Probe { path },
        )
    }
}

/// The step after the staged bytes.
pub open spec fn after_reading(job: JobView, reply: Reply) -> StepView {
    match reply {
        Reply::Bytes(bytes) => inspected(job, bytes@),
        _ => StepView::Done(Err(AppErrView::FileIO)),
    }
}

/// The step after the probe of the canonical path: the image is written
/// there unless the verdict turns it away.
pub open spec fn after_probing(job: JobView, image: Seq<u8>, path: Seq<char>, reply: Reply) -> StepView {
    match reply {
        Reply::Existing(existing) => match verdict(existing, dimensions_of(image)) {
            Err(error) => StepView::Ask(
                job.at(StageView::Failing { error }),
                RequestView::Release { path },
            ),
            Ok(_) => match png_of(image) {
                None => StepView::Ask(
                    job.at(StageView::Failing { error: AppErrView::Image }),
                    RequestView::Release { path },
                ),
                Some(bytes) => StepView::Ask(
                    job.at(StageView::Writing { path }),
                    RequestView::Store { path, bytes },
                ),
            },
        },
        _ => StepView::Ask(
            job.at(StageView::Failing { error: AppErrView::FileIO }),
            RequestView::Release { path },
        ),
    }
}

/// The step after the image was to be written.
pub open spec fn after_writing(job: JobView, path: Seq<char>, reply: Reply) -> StepView {
    match reply {
        Reply::Done => StepView::Ask(
            job.at(StageView::Measuring { kind: Type::Image }),
            RequestView::Measure { path },
        ),
        _ => StepView::Ask(
            job.at(StageView::Failing { error: AppErrView::FileIO }),
            RequestView::Release { path },
        ),
    }
}

/// The step after the video was to be moved.
pub open spec fn after_moving(job: JobView, to: Seq<char>, reply: Reply) -> StepView {
    match reply {
        Reply::Done => StepView::Ask(
            job.at(StageView::Measuring { kind: Type::Video }),
            RequestView::Measure { path: to },
        ),
        _ => StepView::Done(Err(AppErrView::FileIO)),
    }
}

/// The step after the stored file was to be measured.
pub open spec fn after_measuring(job: JobView, kind: Type, reply: Reply) -> StepView {
    match reply {
        Reply::Size(len) => StepView::Done(Ok(reported(len, kind, job.folder))),
        _ => StepView::Done(Err(AppErrView::FileIO)),
    }
}

/// The step that follows when a job gets `reply` to its last request. A
/// reply that does not answer the request counts as the request's failure.
pub open spec fn next(job: JobView, reply: Reply) -> StepView {
    match job.stage {
        StageView::DanbooruPage => after_danbooru_page(job, reply),
        StageView::PixivPage => after_pixiv_page(job, reply),
        StageView::PixivMeta => after_pixiv_meta(job, reply),
        StageView::TweetText => after_tweet_text(job, reply),
        StageView::TweetMedia => after_tweet_media(job, reply),
        StageView::Header { url, fixed } => after_header(job, url, fixed, reply),
        StageView::Saving { media, source } => after_saving(job, media, source, reply),
        StageView::Reading => after_reading(job, reply),
        StageView::Probing { image, path } => after_probing(job, image, path, reply),
        StageView::Writing { path } => after_writing(job, path, reply),
        StageView::Moving { to } => after_moving(job, to, reply),
        StageView::Measuring { kind } => after_measuring(job, kind, reply),
        StageView::Failing { error } => StepView::Done(Err(error)),
    }
}

/// The error of a job whose strategy met the fault that `reply` reports.
fn fault_of_reply(reply: &Reply, natural: Fault) -> (r: AppErr)
    ensures
        r@ == fault_error(*reply, natural),
{
    let fault = match reply {
        Reply::Failed(fault) => *fault,
        _ => natural,
    };
    match fault {
        Fault::Network => AppErr::Scrape(ScrapErr::Request),
        Fault::Storage => AppErr::Scrape(ScrapErr::FileSystem),
        Fault::Document => AppErr::Scrape(ScrapErr::JsonParse),
    }
}

/// Takes the reply to the request for a post's page.
fn on_danbooru_page(root: String, folder: Folder, slot: String, reply: Reply) -> (r: Step)
    ensures
        r@ == after_danbooru_page(
            JobView { root: root@, folder, slot: slot@, stage: StageView::DanbooruPage },
            reply,
        ),
{
    match reply {
        Reply::Text(page) => match danbooru::media_url(page.as_str()) {
            Err(e) => Step::Done(Err(AppErr::Scrape(e))),
            Ok(url) => {
                let request = Request::Open { url: url.clone(), referer: None };
                Step::Ask(Job { root, folder, slot, stage: Stage::Header { url, fixed: None } }, request)
            },
        },
        other => Step::Done(Err(fault_of_reply(&other, Fault::Network))),
    }
}

/// Takes the reply to the request for an artwork's page.
fn on_pixiv_page(root: String, folder: Folder, slot: String, reply: Reply) -> (r: Step)
    ensures
        r@ == after_pixiv_page(
            JobView { root: root@, folder, slot: slot@, stage: StageView::PixivPage },
            reply,
        ),
{
    match reply {
        Reply::Text(page) => match pixiv::metadata(page.as_str()) {
            Err(e) => Step::Done(Err(AppErr::Scrape(e))),
            Ok(json) => Step::Ask(
                Job { root, folder, slot, stage: Stage::PixivMeta },
                Request::DecodeIllusts { json },
            ),
        },
        other => Step::Done(Err(fault_of_reply(&other, Fault::Network))),
    }
}

/// Takes the reply to the request for an artwork's illustrations.
fn on_pixiv_meta(root: String, folder: Folder, slot: String, reply: Reply) -> (r: Step)
    ensures
        r@ == after_pixiv_meta(
            JobView { root: root@, folder, slot: slot@, stage: StageView::PixivMeta },
            reply,
        ),
{
    match reply {
        Reply::Illusts(illusts) => match pixiv::original(&illusts) {
            Err(e) => Step::Done(Err(AppErr::Scrape(e))),
            Ok(url) => {
                let request = pixiv::download(url.clone());
                Step::Ask(
                    Job { root, folder, slot, stage: Stage::Header { url, fixed: Some(Type::Image) } },
                    request,
                )
            },
        },
        other => Step::Done(Err(fault_of_reply(&other, Fault::Document))),
    }
}

/// Takes the reply to the tweet lookup.
fn on_tweet_text(root: String, folder: Folder, slot: String, reply: Reply) -> (r: Step)
    ensures
        r@ == after_tweet_text(
            JobView { root: root@, folder, slot: slot@, stage: StageView::TweetText },
            reply,
        ),
{
    match reply {
        Reply::Text(json) => Step::Ask(
            Job { root, folder, slot, stage: Stage::TweetMedia },
            Request::DecodeTweet { json },
        ),
        other => Step::Done(Err(fault_of_reply(&other, Fault::Network))),
    }
}

/// Takes the reply to the request for a tweet's media.
fn on_tweet_media(root: String, folder: Folder, slot: String, reply: Reply) -> (r: Step)
    ensures
        r@ == after_tweet_media(
            JobView { root: root@, folder, slot: slot@, stage: StageView::TweetMedia },
            reply,
        ),
{
    match reply {
        Reply::Tweet(media) => match twitter::select(&media) {
            Err(e) => Step::Done(Err(AppErr::Scrape(e))),
            Ok((url, kind)) => {
                let request = Request::Open { url: url.clone(), referer: None };
                Step::Ask(
                    Job { root, folder, slot, stage: Stage::Header { url, fixed: Some(kind) } },
                    request,
                )
            },
        },
        other => Step::Done(Err(fault_of_reply(&other, Fault::Document))),
    }
}

/// Takes the reply to the request that opens the media.
fn on_header(
    root: String,
    folder: Folder,
    slot: String,
    url: String,
    fixed: Option<Type>,
    reply: Reply,
) -> (r: Step)
    ensures
        r@ == after_header(
            JobView { root: root@, folder, slot: slot@, stage: StageView::Reading },
            url@,
            fixed,
            reply,
        ),
{
    match reply {
        Reply::Opened(content_type) => {
            let kind = match fixed {
                Some(kind) => Ok(kind),
                None => generic::classify(url.as_str(), content_type.as_ref()),
            };
            match kind {
                Err(e) => Step::Done(Err(AppErr::Scrape(e))),
                Ok(kind) => {
                    let media = stage(slot.as_str(), kind, fixed.is_none());
                    let request = Request::Save { path: media.location.clone() };
                    Step::Ask(
                        Job { root, folder, slot, stage: Stage::Saving { media, source: url } },
                        request,
                    )
                },
            }
        },
        other => Step::Done(Err(fault_of_reply(&other, Fault::Network))),
    }
}

/// Takes the reply to the request that stages the media.
fn on_saving(
    root: String,
    folder: Folder,
    slot: String,
    media: Media,
    source: String,
    reply: Reply,
) -> (r: Step)
    ensures
        r@ == after_saving(
            JobView { root: root@, folder, slot: slot@, stage: StageView::Reading },
            media@,
            source@,
            reply,
        ),
{
    match reply {
        Reply::Done => match media.kind {
            Type::Image => Step::Ask(
                Job { root, folder, slot, stage: Stage::Reading },
                Request::Take { path: media.location },
            ),
            Type::Video => {
                let to = canonical_video_path(root.as_str(), folder, source.as_str());
                let request = Request::Move { from: media.location, to: to.clone() };
                Step::Ask(Job { root, folder, slot, stage: Stage::Moving { to } }, request)
            },
        },
        other => {
            let error = fault_of_reply(&other, Fault::Storage);
            Step::Ask(
                Job { root, folder, slot, stage: Stage::Failing { error } },
                Request::Discard { path: media.location },
            )
        },
    }
}

/// Takes the reply to the request for the staged bytes.
fn on_reading(root: String, folder: Folder, slot: String, reply: Reply) -> (r: Step)
    ensures
        r@ == after_reading(
            JobView { root: root@, folder, slot: slot@, stage: StageView::Reading },
            reply,
        ),
{
    match reply {
        Reply::Bytes(bytes) => match decode(bytes) {
            Err(_) => Step::Done(Err(AppErr::Image)),
            Ok(image) => {
                let size = dimensions(&image);
                if size.0 == 0 || size.1 == 0 {
                    Step::Done(Err(AppErr::Image))
                } else {
                    let hash = gradient_hash(&image, HASH_WIDTH, HASH_HEIGHT);
                    let path = canonical_image_path(root.as_str(), folder, &hash);
                    let request = Request::Probe { path: path.clone() };
                    Step::Ask(
                        Job { root, folder, slot, stage: Stage::Probing { image, path } },
                        request,
                    )
                }
            },
        },
        _ => Step::Done(Err(AppErr::FileIO)),
    }
}

/// Takes the reply to the probe of the canonical path.
fn on_probing(
    root: String,
    folder: Folder,
    slot: String,
    image: Bitmap,
    path: String,
    reply: Reply,
) -> (r: Step)
    ensures
        r@ == after_probing(
            JobView { root: root@, folder, slot: slot@, stage: StageView::Reading },
            image@,
            path@,
            reply,
        ),
{
    match reply {
        Reply::Existing(existing) => match decide(existing, dimensions(&image)) {
            Err(error) => Step::Ask(
                Job { root, folder, slot, stage: Stage::Failing { error } },
                Request::Release { path },
            ),
            Ok(_) => match to_png(&image) {
                Err(_) => Step::Ask(
                    Job { root, folder, slot, stage: Stage::Failing { error: AppErr::Image } },
                    Request::Release { path },
                ),
                Ok(bytes) => {
                    let request = Request::Store { path: path.clone(), bytes };
                    Step::Ask(Job { root, folder, slot, stage: Stage::Writing { path } }, request)
                },
            },
        },
        _ => Step::Ask(
            Job { root, folder, slot, stage: Stage::Failing { error: AppErr::FileIO } },
            Request::Release { path },
        ),
    }
}

/// Takes the reply to the request that writes the image.
fn on_writing(root: String, folder: Folder, slot: String, path: String, reply: Reply) -> (r: Step)
    ensures
        r@ == after_writing(
            JobView { root: root@, folder, slot: slot@, stage: StageView::Reading },
            path@,
            reply,
        ),
{
    match reply {
        Reply::Done => Step::Ask(
            Job { root, folder, slot, stage: Stage::Measuring { kind: Type::Image } },
            Request::Measure { path },
        ),
        _ => Step::Ask(
            Job { root, folder, slot, stage: Stage::Failing { error: AppErr::FileIO } },
            Request::Release { path },
        ),
    }
}

/// Takes the reply to the request that moves the video.
fn on_moving(root: String, folder: Folder, slot: String, to: String, reply: Reply) -> (r: Step)
    ensures
        r@ == after_moving(
            JobView { root: root@, folder, slot: slot@, stage: StageView::Reading },
            to@,
            reply,
        ),
{
    match reply {
        Reply::Done => Step::Ask(
            Job { root, folder, slot, stage: Stage::Measuring { kind: Type::Video } },
            Request::Measure { path: to },
        ),
        _ => Step::Done(Err(AppErr::FileIO)),
    }
}

/// Begins a job for `url` that stages its payload at `slot`: the URL is
/// routed to its strategy, and the step is the strategy's first request, or
/// the end where the URL is refused.
pub fn begin(url: &str, folder: Folder, root: &str, slot: String) -> (r: Step)
    ensures
        r@ == begun(url@, folder, root@, slot@),
{
    match crate::scraper::scrape(url) {
        Err(e) => Step::Done(Err(AppErr::Scrape(e))),
        Ok((strategy, request)) => {
            let stage = match strategy {
                Strategy::Generic => Stage::Header { url: url.to_owned(), fixed: None },
                Strategy::Danbooru => Stage::DanbooruPage,
                Strategy::Pixiv => Stage::PixivPage,
                Strategy::Twitter => Stage::TweetText,
            };
            Step::Ask(Job { root: root.to_owned(), folder, slot, stage }, request)
        },
    }
}

/// Begins a job for `url` with a staging slot of its own in the scratch
/// directory.
pub fn url_handler(url: &str, folder: Folder, root: &str, scratch: &str) -> (r: Step)
    ensures
        exists|id: Seq<char>|
            is_uuid_text(id) && r@ == #[trigger] begun(url@, folder, root@, join(scratch@, id)),
{
    let slot = allocate(scratch);
    begin(url, folder, root, slot)
}

impl Job {
    /// Takes the reply to the job's last request and gives the step that
    /// follows.
    pub fn advance(self, reply: Reply) -> (r: Step)
        ensures
            r@ == next(self@, reply),
    {
        let Job { root, folder, slot, stage } = self;
        match stage {
            Stage::DanbooruPage => on_danbooru_page(root, folder, slot, reply),
            Stage::PixivPage => on_pixiv_page(root, folder, slot, reply),
            Stage::PixivMeta => on_pixiv_meta(root, folder, slot, reply),
            Stage::TweetText => on_tweet_text(root, folder, slot, reply),
            Stage::TweetMedia => on_tweet_media(root, folder, slot, reply),
            Stage::Header { url, fixed } => on_header(root, folder, slot, url, fixed, reply),
            Stage::Saving { media, source } => on_saving(root, folder, slot, media, source, reply),
            Stage::Reading => on_reading(root, folder, slot, reply),
            Stage::Probing { image, path } => on_probing(root, folder, slot, image, path, reply),
            Stage::Writing { path } => on_writing(root, folder, slot, path, reply),
            Stage::Moving { to } => on_moving(root, folder, slot, to, reply),
            Stage::Measuring { kind } => match reply {
                Reply::Size(len) => Step::Done(Ok(MediaInfo::new(len, folder, kind))),
                _ => Step::Done(Err(AppErr::FileIO)),
            },
            Stage::Failing { error } => Step::Done(Err(error)),
        }
    }
}

} // verus!
