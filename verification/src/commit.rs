use vstd::prelude::*;
use crate::address::{parse_url, url_parts};
use crate::error::{AppErr, AppErrView};
use crate::imaging::{hex, hex_encode, is_hex_lower, lemma_hex_injective, lemma_hex_is_lower_case};
use crate::media::Folder;
use crate::paths::{
    default_name, file_name, file_name_or_default, is_file_name, join, join_path, last_component,
    lemma_default_is_file_name, lemma_file_name_is_one, lemma_last_component_of_join,
};
use crate::text::{concatenate, is_prefix};

verus! {

/// Whether an incoming image is turned away: the store holds an image at its
/// path that is at least as wide and at least as high.
pub open spec fn rejects(existing: Option<(u32, u32)>, incoming: (u32, u32)) -> bool {
    existing matches Some(old) && old.0 >= incoming.0 && old.1 >= incoming.1
}

/// The judgement on an incoming image.
pub open spec fn verdict(existing: Option<(u32, u32)>, incoming: (u32, u32)) -> Result<
    (),
    AppErrView,
> {
    if rejects(existing, incoming) {
        Err(AppErrView::BetterImage { old: existing->0, new: incoming })
    } else {
        Ok(())
    }
}

/// The mathematical value of what `decide` returns.
pub open spec fn verdict_view(r: Result<(), AppErr>) -> Result<(), AppErrView> {
    match r {
        Ok(()) => Ok(()),
        Err(e) => Err(e@),
    }
}

/// The directory of a folder in the store at `root`.
pub open spec fn folder_dir(root: Seq<char>, folder: Folder) -> Seq<char> {
    join(root, folder.name())
}

/// The file name of an image with the given perceptual hash.
pub open spec fn image_name(hash: Seq<u8>) -> Seq<char> {
    hex(hash) + ".png"@
}

/// The canonical path of an image with the given perceptual hash.
pub open spec fn image_path(root: Seq<char>, folder: Folder, hash: Seq<u8>) -> Seq<char> {
    join(folder_dir(root, folder), image_name(hash))
}

/// The file name of a video fetched from the URL `source`: the file name that
/// the last segment of the URL's path ends in; the default name where the
/// text is no URL or its path has no segment that is a file name.
pub open spec fn video_name(source: Seq<char>) -> Seq<char> {
    match url_parts(source) {
        Some(parts) => match parts.last_segment() {
            Some(segment) => file_name_or_default(segment),
            None => default_name(),
        },
        None => default_name(),
    }
}

/// The path that a video fetched from the URL `source` is stored at.
pub open spec fn video_path(root: Seq<char>, folder: Folder, source: Seq<char>) -> Seq<char> {
    join(folder_dir(root, folder), video_name(source))
}

/// Whether `path` lies in the subtree of the directory `dir`.
pub open spec fn inside(dir: Seq<char>, path: Seq<char>) -> bool {
    is_prefix(dir + seq!['/'], path)
}

/// The store after a commit, as a map from paths to file contents: the
/// encoded image stands at the path unless the incoming image was turned
/// away.
pub open spec fn committed(
    store: Map<Seq<char>, Seq<u8>>,
    path: Seq<char>,
    existing: Option<(u32, u32)>,
    incoming: (u32, u32),
    encoded: Seq<u8>,
) -> Map<Seq<char>, Seq<u8>> {
    if rejects(existing, incoming) {
        store
    } else {
        store.insert(path, encoded)
    }
}

/// Images with the same perceptual hash have the same canonical path in a
/// folder, and images with different hashes have different ones.
pub proof fn lemma_path_follows_hash(root: Seq<char>, folder: Folder, a: Seq<u8>, b: Seq<u8>)
    ensures
        image_path(root, folder, a) == image_path(root, folder, b) <==> a == b,
{
    if image_path(root, folder, a) == image_path(root, folder, b) {
        let dir = folder_dir(root, folder);
        let front = if dir.len() == 0 || dir.last() == '/' {
            dir
        } else {
            dir + seq!['/']
        };
        assert(image_path(root, folder, a) =~= front + image_name(a));
        assert(image_path(root, folder, b) =~= front + image_name(b));
        assert(image_name(a) =~= (front + image_name(a)).skip(front.len() as int));
        assert(image_name(b) =~= (front + image_name(b)).skip(front.len() as int));
        assert(image_name(a) == image_name(b));
        let ext = ".png"@;
        assert(hex(a).len() + ext.len() == hex(b).len() + ext.len());
        assert(hex(a) =~= image_name(a).take(hex(a).len() as int));
        assert(hex(b) =~= image_name(b).take(hex(b).len() as int));
        lemma_hex_injective(a, b);
    }
}

/// The file of an image is named by the lower-case hexadecimal digits of its
/// perceptual hash and the extension of the one format that images are
/// stored in.
pub proof fn lemma_image_file_name(root: Seq<char>, folder: Folder, hash: Seq<u8>)
    ensures
        last_component(image_path(root, folder, hash)) == hex(hash) + ".png"@,
        hex(hash).len() == 2 * hash.len(),
        forall|j: int| 0 <= j < hex(hash).len() ==> is_hex_lower(#[trigger] hex(hash)[j]),
{
    reveal_strlit(".png");
    lemma_hex_is_lower_case(hash);
    let name = image_name(hash);
    assert forall|j: int| 0 <= j < name.len() implies name[j] != '/' by {
        if j < hex(hash).len() {
            assert(is_hex_lower(hex(hash)[j]));
        }
    }
    lemma_last_component_of_join(folder_dir(root, folder), name);
}

/// An image no wider and no higher than the one stored at its path is turned
/// away, with the dimensions of both, and the store stays as it was.
pub proof fn lemma_dedup_monotone(
    store: Map<Seq<char>, Seq<u8>>,
    path: Seq<char>,
    old: (u32, u32),
    new: (u32, u32),
    encoded: Seq<u8>,
)
    requires
        new.0 <= old.0,
        new.1 <= old.1,
    ensures
        verdict(Some(old), new) == Err::<(), AppErrView>(AppErrView::BetterImage { old, new }),
        committed(store, path, Some(old), new, encoded) == store,
{
}

/// An image wider or higher than the one stored at its path replaces it, and
/// so does one whose path holds nothing; no other path changes.
pub proof fn lemma_dedup_improvement(
    store: Map<Seq<char>, Seq<u8>>,
    path: Seq<char>,
    existing: Option<(u32, u32)>,
    new: (u32, u32),
    encoded: Seq<u8>,
)
    requires
        existing matches Some(old) ==> new.0 > old.0 || new.1 > old.1,
    ensures
        verdict(existing, new) == Ok::<(), AppErrView>(()),
        committed(store, path, existing, new, encoded).contains_key(path),
        committed(store, path, existing, new, encoded)[path] == encoded,
        forall|other: Seq<char>|
            other != path ==> (#[trigger] committed(
                store,
                path,
                existing,
                new,
                encoded,
            ).contains_key(other) <==> store.contains_key(other)),
        forall|other: Seq<char>|
            other != path && store.contains_key(other) ==> #[trigger] committed(
                store,
                path,
                existing,
                new,
                encoded,
            )[other] == store[other],
{
}

/// A file that stands in a folder's directory lies in that folder's subtree
/// and not in the other folder's.
pub proof fn lemma_folder_isolation(root: Seq<char>, folder: Folder, name: Seq<char>)
    ensures
        inside(folder_dir(root, folder), join(folder_dir(root, folder), name)),
        !inside(folder_dir(root, folder.other()), join(folder_dir(root, folder), name)),
{
    reveal_strlit("safe");
    reveal_strlit("unsafe");
    let front = if root.len() == 0 || root.last() == '/' {
        root
    } else {
        root + seq!['/']
    };
    let own = folder_dir(root, folder);
    let other = folder_dir(root, folder.other());
    let path = join(own, name);
    assert(own =~= front + folder.name());
    assert(other =~= front + folder.other().name());
    assert(own.last() == 'e');
    assert(path =~= own + seq!['/'] + name);
    assert(path.subrange(0, (own + seq!['/']).len() as int) =~= own + seq!['/']);
    let k = front.len() as int;
    assert(path[k] == folder.name()[0]);
    assert((other + seq!['/'])[k] == folder.other().name()[0]);
    if inside(other, path) {
        assert(path.subrange(0, (other + seq!['/']).len() as int)[k] == (other + seq!['/'])[k]);
    }
}

/// The canonical path of an image lies in its folder's subtree and not in the
/// other folder's, and so does the path of a video.
pub proof fn lemma_paths_stay_in_folder(
    root: Seq<char>,
    folder: Folder,
    hash: Seq<u8>,
    source: Seq<char>,
)
    ensures
        inside(folder_dir(root, folder), image_path(root, folder, hash)),
        !inside(folder_dir(root, folder.other()), image_path(root, folder, hash)),
        inside(folder_dir(root, folder), video_path(root, folder, source)),
        !inside(folder_dir(root, folder.other()), video_path(root, folder, source)),
{
    lemma_folder_isolation(root, folder, image_name(hash));
    lemma_folder_isolation(root, folder, video_name(source));
}

/// Whatever the URL, a video is stored in the directory of its folder itself,
/// under a file name: no URL leads out of the folder.
pub proof fn lemma_video_file_name(root: Seq<char>, folder: Folder, source: Seq<char>)
    ensures
        is_file_name(video_name(source)),
        last_component(video_path(root, folder, source)) == video_name(source),
{
    lemma_default_is_file_name();
    match url_parts(source) {
        Some(parts) => match parts.last_segment() {
            Some(segment) => {
                lemma_file_name_is_one(segment);
            },
            None => {},
        },
        None => {},
    }
    lemma_last_component_of_join(folder_dir(root, folder), video_name(source));
}

/// Judges an incoming image of the dimensions `incoming` against what the
/// store holds at its path.
pub fn decide(existing: Option<(u32, u32)>, incoming: (u32, u32)) -> (r: Result<(), AppErr>)
    ensures
        verdict_view(r) == verdict(existing, incoming),
{
    match existing {
        Some(old) => if old.0 >= incoming.0 && old.1 >= incoming.1 {
            Err(AppErr::BetterImage { old, new: incoming })
        } else {
            Ok(())
        },
        None => Ok(()),
    }
}

/// The canonical path of an image with the given perceptual hash.
pub fn canonical_image_path(root: &str, folder: Folder, hash: &Vec<u8>) -> (r: String)
    ensures
        r@ == image_path(root@, folder, hash@),
{
    let dir = join_path(root, folder.as_ref());
    let digits = hex_encode(hash);
    let name = concatenate(digits.as_str(), ".png");
    join_path(dir.as_str(), name.as_str())
}

/// The path that a video fetched from the URL `source` is stored at.
pub fn canonical_video_path(root: &str, folder: Folder, source: &str) -> (r: String)
    ensures
        r@ == video_path(root@, folder, source@),
{
    let dir = join_path(root, folder.as_ref());
    let name = match parse_url(source) {
        Ok(parts) => match parts.last_segment() {
            Some(segment) => file_name(segment.as_str()),
            None => "default.mp4".to_owned(),
        },
        Err(_) => "default.mp4".to_owned(),
    };
    join_path(dir.as_str(), name.as_str())
}

} // verus!
