use vstd::prelude::*;
use crate::commit::{folder_dir, image_path, inside, lemma_paths_stay_in_folder};
use crate::error::AppErrView;
use crate::imaging::{dimensions_of, gradient_hash_of, png_of};
use crate::media::{Folder, Type};
use crate::paths::{join, last_component, lemma_cut_unique};
use crate::pipeline::{
    begun, inspected, next, JobView, StageView, StepView, HASH_HEIGHT, HASH_WIDTH,
};
use crate::staging::{is_uuid_text, lemma_uuid_is_plain, staged, video_extension};
use crate::protocol::{Reply, RequestView};

verus! {

/// The staging file that a job at this stage has asked to be written and not
/// yet asked to be removed.
pub open spec fn staged_file(stage: StageView) -> Option<Seq<char>> {
    match stage {
        StageView::Saving { media, source } => Some(media.location),
        _ => None,
    }
}

/// Whether carrying out the request removes the file `path`.
pub open spec fn removes(request: RequestView, path: Seq<char>) -> bool {
    match request {
        RequestView::Discard { path: p } => p == path,
        RequestView::Take { path: p } => p == path,
        RequestView::Move { from, to } => from == path,
        _ => false,
    }
}

/// The path whose exclusive section a job at this stage is in.
pub open spec fn held(stage: StageView) -> Option<Seq<char>> {
    match stage {
        StageView::Probing { image, path } => Some(path),
        StageView::Writing { path } => Some(path),
        _ => None,
    }
}

/// Whether carrying out the request leaves the exclusive section of `path`.
pub open spec fn releases(request: RequestView, path: Seq<char>) -> bool {
    match request {
        RequestView::Release { path: p } => p == path,
        RequestView::Measure { path: p } => p == path,
        _ => false,
    }
}

/// The path in the store that a request reads or writes.
pub open spec fn store_path(request: RequestView) -> Option<Seq<char>> {
    match request {
        RequestView::Move { from, to } => Some(to),
        RequestView::Probe { path } => Some(path),
        RequestView::Store { path, bytes } => Some(path),
        RequestView::Release { path } => Some(path),
        RequestView::Measure { path } => Some(path),
        _ => None,
    }
}

/// The path in the store that a job at this stage remembers.
pub open spec fn stage_path(stage: StageView) -> Option<Seq<char>> {
    match stage {
        StageView::Probing { image, path } => Some(path),
        StageView::Writing { path } => Some(path),
        StageView::Moving { to } => Some(to),
        _ => None,
    }
}

/// Whether `path` lies in the subtree of the job's folder and not in that of
/// the other folder.
pub open spec fn in_folder(job: JobView, path: Seq<char>) -> bool {
    &&& inside(folder_dir(job.root, job.folder), path)
    &&& !inside(folder_dir(job.root, job.folder.other()), path)
}

/// Whether the path that the job remembers lies in its folder.
pub open spec fn well_formed(job: JobView) -> bool {
    stage_path(job.stage) matches Some(path) ==> in_folder(job, path)
}

/// A job begins with no staging file, outside every exclusive section and
/// well formed, and its first request touches neither a staging file nor the
/// store.
pub proof fn lemma_begin(url: Seq<char>, folder: Folder, root: Seq<char>, slot: Seq<char>)
    ensures
        begun(url, folder, root, slot) matches StepView::Ask(job, request) ==> {
            &&& job.root == root
            &&& job.folder == folder
            &&& job.slot == slot
            &&& staged_file(job.stage) is None
            &&& held(job.stage) is None
            &&& well_formed(job)
            &&& store_path(request) is None
            &&& !(request is Save)
        },
{
}

/// Whatever reply comes while a staging file is outstanding, the job goes on
/// and its next request removes that file. So no job ends, in success,
/// rejection or failure, before it has asked for the removal of what it
/// staged.
pub proof fn lemma_staged_file_is_removed(job: JobView, reply: Reply)
    requires
        staged_file(job.stage) is Some,
    ensures
        next(job, reply) matches StepView::Ask(then, request) && removes(
            request,
            staged_file(job.stage)->0,
        ) && staged_file(then.stage) is None,
{
}

/// A staging file is outstanding exactly from the request that writes it:
/// the only path written in the scratch directory is the one that the job
/// then remembers as staged.
pub proof fn lemma_staging_is_tracked(job: JobView, reply: Reply)
    ensures
        next(job, reply) matches StepView::Ask(then, request) ==> {
            &&& then.slot == job.slot
            &&& (staged_file(then.stage) matches Some(path) ==> request == (RequestView::Save {
                path,
            }))
            &&& (request matches RequestView::Save { path } ==> staged_file(then.stage) == Some(
                path,
            ))
        },
{
}

/// A job inside the exclusive section of a path goes on whatever the reply:
/// it stays inside to write the image to that path, or its next request
/// leaves the section.
pub proof fn lemma_section_is_left(job: JobView, reply: Reply)
    requires
        held(job.stage) is Some,
    ensures
        next(job, reply) matches StepView::Ask(then, request) && {
            let path = held(job.stage)->0;
            ||| held(then.stage) == Some(path) && request is Store && store_path(request)
                == Some(path)
            ||| held(then.stage) is None && releases(request, path)
        },
{
}

/// A job outside every exclusive section enters one only by probing the
/// path, and writes no image.
pub proof fn lemma_section_is_entered(job: JobView, reply: Reply)
    requires
        held(job.stage) is None,
    ensures
        next(job, reply) matches StepView::Ask(then, request) ==> {
            &&& (held(then.stage) matches Some(path) ==> request == (RequestView::Probe { path }))
            &&& (request matches RequestView::Probe { path } ==> held(then.stage) == Some(path))
            &&& !(request is Store)
        },
{
}

/// A job keeps its store and folder, and every path in the store that it
/// reads, writes or remembers lies in the subtree of its folder and not in
/// that of the other folder. What it reports in the end names its folder.
pub proof fn lemma_folder_is_kept(job: JobView, reply: Reply)
    requires
        well_formed(job),
    ensures
        next(job, reply) matches StepView::Ask(then, request) ==> {
            &&& then.root == job.root
            &&& then.folder == job.folder
            &&& well_formed(then)
            &&& (store_path(request) matches Some(path) ==> in_folder(job, path))
        },
        next(job, reply) matches StepView::Done(Ok(info)) ==> info.folder == job.folder,
{
    match job.stage {
        StageView::Saving { media, source } => {
            lemma_paths_stay_in_folder(job.root, job.folder, Seq::empty(), source);
        },
        StageView::Reading => {
            if let Reply::Bytes(bytes) = reply {
                lemma_paths_stay_in_folder(
                    job.root,
                    job.folder,
                    gradient_hash_of(bytes@, HASH_WIDTH, HASH_HEIGHT),
                    Seq::empty(),
                );
            }
        },
        _ => {},
    }
}

/// Jobs for the same store and folder that read the same bytes probe the
/// same path, the canonical path of the bytes' perceptual hash, or fail alike.
pub proof fn lemma_identical_images_same_path(first: JobView, second: JobView, bytes: Seq<u8>)
    requires
        first.root == second.root,
        first.folder == second.folder,
    ensures
        inspected(first, bytes) is Done <==> inspected(second, bytes) is Done,
        inspected(first, bytes) is Done ==> inspected(first, bytes) == inspected(second, bytes),
        inspected(first, bytes) matches StepView::Ask(a, request) ==> {
            &&& inspected(second, bytes) matches StepView::Ask(b, again)
            &&& again == request
            &&& request == (RequestView::Probe {
                path: image_path(
                    first.root,
                    first.folder,
                    gradient_hash_of(bytes, HASH_WIDTH, HASH_HEIGHT),
                ),
            })
        },
{
}

/// How many replies a job at this stage can take at most before it ends.
pub open spec fn steps_left(stage: StageView) -> nat {
    match stage {
        StageView::PixivPage => 8,
        StageView::TweetText => 8,
        StageView::DanbooruPage => 7,
        StageView::PixivMeta => 7,
        StageView::TweetMedia => 7,
        StageView::Header { url, fixed } => 6,
        StageView::Saving { media, source } => 5,
        StageView::Reading => 4,
        StageView::Probing { image, path } => 3,
        StageView::Writing { path } => 2,
        StageView::Moving { to } => 2,
        StageView::Measuring { kind } => 1,
        StageView::Failing { error } => 1,
    }
}

/// Every reply brings a job nearer to its end: no request is made twice, and
/// a job ends after eight replies at most.
pub proof fn lemma_job_ends(job: JobView, reply: Reply)
    ensures
        0 < steps_left(job.stage) <= 8,
        next(job, reply) matches StepView::Ask(then, request) ==> steps_left(then.stage)
            < steps_left(job.stage),
{
}

/// What a job stages stands in the scratch directory itself, under the
/// random identifier of its slot, with the video extension where it got one.
pub proof fn lemma_staged_file_name(
    scratch: Seq<char>,
    id: Seq<char>,
    kind: Type,
    extension: bool,
)
    requires
        is_uuid_text(id),
    ensures
        last_component(staged(join(scratch, id), kind, extension).location) == if extension && kind
            == Type::Video {
            id + video_extension()
        } else {
            id
        },
{
    reveal_strlit(".mp4");
    lemma_uuid_is_plain(id);
    let name = if extension && kind == Type::Video {
        id + video_extension()
    } else {
        id
    };
    let location = staged(join(scratch, id), kind, extension).location;
    let k = location.len() - name.len();
    assert forall|j: int| k <= j < location.len() implies location[j] != '/' by {
        assert(location[j] == name[j - k]);
    }
    lemma_cut_unique(location, k);
    assert(location.skip(k) =~= name);
    assert(last_component(location) == name);
}

/// An image no wider and no higher than the one that the store holds at its
/// canonical path is turned away with the dimensions of both: the job writes
/// nothing and leaves the exclusive section.
pub proof fn lemma_lower_resolution_is_turned_away(
    job: JobView,
    image: Seq<u8>,
    path: Seq<char>,
    old: (u32, u32),
)
    requires
        job.stage == (StageView::Probing { image, path }),
        dimensions_of(image).0 <= old.0,
        dimensions_of(image).1 <= old.1,
    ensures
        next(job, Reply::Existing(Some(old))) == StepView::Ask(
            job.at(
                StageView::Failing {
                    error: AppErrView::BetterImage { old, new: dimensions_of(image) },
                },
            ),
            RequestView::Release { path },
        ),
{
}

/// An image wider or higher than the one that the store holds at its
/// canonical path, or one whose path holds nothing, is written there in its
/// PNG encoding.
pub proof fn lemma_higher_resolution_is_stored(
    job: JobView,
    image: Seq<u8>,
    path: Seq<char>,
    existing: Option<(u32, u32)>,
    encoded: Seq<u8>,
)
    requires
        job.stage == (StageView::Probing { image, path }),
        existing matches Some(old) ==> dimensions_of(image).0 > old.0 || dimensions_of(image).1
            > old.1,
        png_of(image) == Some(encoded),
    ensures
        next(job, Reply::Existing(existing)) == StepView::Ask(
            job.at(StageView::Writing { path }),
            RequestView::Store { path, bytes: encoded },
        ),
{
}

} // verus!
