//! Decisions of a service that takes the URL of a post, fetches the media
//! behind it and files a deduplicated copy in a store.
//!
//! A [`pipeline::Job`] is a state machine: each step is a request for outside
//! work, and `advance` takes the reply. The driver of a job does the requests,
//! the file access and the locking; every choice between them is made here.

pub mod address;
pub mod commit;
pub mod error;
pub mod guarantees;
pub mod imaging;
pub mod markup;
pub mod media;
pub mod paths;
pub mod pipeline;
pub mod protocol;
pub mod report;
pub mod scraper;
pub mod staging;
pub mod text;
