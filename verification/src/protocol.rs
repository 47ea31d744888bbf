use vstd::prelude::*;
use crate::scraper::twitter::MediaType;

verus! {

/// One piece of outside work that a job asks of its driver. The driver
/// carries it out and hands back a [`Reply`].
#[derive(Debug, PartialEq, Eq)]
pub enum Request {
    /// GET `url`, with the bearer credential where `bearer` is set, and reply
    /// with the body as `Reply::Text`.
    Page { url: String, bearer: bool },
    /// Read `json` as the metadata of an artwork page and reply with
    /// `Reply::Illusts`.
    DecodeIllusts { json: String },
    /// Read `json` as the answer of the tweet lookup and reply with
    /// `Reply::Tweet`.
    DecodeTweet { json: String },
    /// GET `url`, sending `referer` where one is given, keep the response
    /// open and reply with `Reply::Opened`.
    Open { url: String, referer: Option<String> },
    /// Write the body of the open response to the file `path`.
    Save { path: String },
    /// Delete the file `path`; a failure to do so is not an error.
    Discard { path: String },
    /// Read the file `path` whole, delete it whether or not that worked, and
    /// reply with `Reply::Bytes`.
    Take { path: String },
    /// Copy the file `from` to `to`, replacing what is there, and delete
    /// `from` whether or not that worked.
    Move { from: String, to: String },
    /// Enter the exclusive section of `path`, then reply with
    /// `Reply::Existing`: the dimensions of the image stored there, if one
    /// can be read.
    Probe { path: String },
    /// Write `bytes` to the file `path`, replacing what is there.
    Store { path: String, bytes: Vec<u8> },
    /// Leave the exclusive section of `path`.
    Release { path: String },
    /// Reply with the length of the file `path` as `Reply::Size`, and leave
    /// the exclusive section of `path` if this job is in it.
    Measure { path: String },
}

/// The mathematical value of a [`Request`].
pub enum RequestView {
    Page { url: Seq<char>, bearer: bool },
    DecodeIllusts { json: Seq<char> },
    DecodeTweet { json: Seq<char> },
    Open { url: Seq<char>, referer: Option<Seq<char>> },
    Save { path: Seq<char> },
    Discard { path: Seq<char> },
    Take { path: Seq<char> },
    Move { from: Seq<char>, to: Seq<char> },
    Probe { path: Seq<char> },
    Store { path: Seq<char>, bytes: Seq<u8> },
    Release { path: Seq<char> },
    Measure { path: Seq<char> },
}

impl View for Request {
    type V = RequestView;

    open spec fn view(&self) -> RequestView {
        match *self {
            Request::Page { url, bearer } => RequestView::Page { url: url@, bearer },
            Request::DecodeIllusts { json } => RequestView::DecodeIllusts { json: json@ },
            Request::DecodeTweet { json } => RequestView::DecodeTweet { json: json@ },
            Request::Open { url, referer } => RequestView::Open {
                url: url@,
                referer: referer.deep_view(),
            },
            Request::Save { path } => RequestView::Save { path: path@ },
            Request::Discard { path } => RequestView::Discard { path: path@ },
            Request::Take { path } => RequestView::Take { path: path@ },
            Request::Move { from, to } => RequestView::Move { from: from@, to: to@ },
            Request::Probe { path } => RequestView::Probe { path: path@ },
            Request::Store { path, bytes } => RequestView::Store { path: path@, bytes: bytes@ },
            Request::Release { path } => RequestView::Release { path: path@ },
            Request::Measure { path } => RequestView::Measure { path: path@ },
        }
    }
}

/// What went wrong where a request could not be carried out.
#[derive(Debug, Clone, Copy, PartialEq, Eq, Structural)]
pub enum Fault {
    /// The request or its transport failed.
    Network,
    /// A file could not be read or written.
    Storage,
    /// A document could not be read as what it should be.
    Document,
}

/// What the driver hands back for a [`Request`].
#[derive(Debug, PartialEq, Eq)]
pub enum Reply {
    /// The body of a page.
    Text(String),
    /// The original image URL of each illustration of an artwork page, in
    /// the order in which the page's metadata yields them.
    Illusts(Vec<String>),
    /// The media attached to a tweet, in the order of the lookup's answer.
    Tweet(Vec<MediaType>),
    /// A response is open; the bytes of the value of its content type
    /// header, where it has one.
    Opened(Option<Vec<u8>>),
    /// The content of a file.
    Bytes(Vec<u8>),
    /// The width and height of the image stored at a path, `None` where
    /// there is no file or none that can be read.
    Existing(Option<(u32, u32)>),
    /// The length of a file in bytes.
    Size(u64),
    /// The request was carried out and has nothing to report.
    Done,
    /// The request could not be carried out.
    Failed(Fault),
}

} // verus!
