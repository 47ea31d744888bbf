use vstd::prelude::*;
use crate::imaging::is_hex_lower;
use crate::media::{Media, MediaView, Type};
use crate::paths::{join, join_path};
use crate::text::concatenate;

verus! {

/// Whether `s` has the shape of a hyphenated lower-case UUID: 36 characters,
/// hyphens at 8, 13, 18 and 23, hexadecimal digits elsewhere.
pub open spec fn is_uuid_text(s: Seq<char>) -> bool {
    &&& s.len() == 36
    &&& forall|i: int|
        0 <= i < 36 ==> if i == 8 || i == 13 || i == 18 || i == 23 {
            #[trigger] s[i] == '-'
        } else {
            is_hex_lower(s[i])
        }
}

/// The extension that a staged video gets where the strategy names one.
pub open spec fn video_extension() -> Seq<char> {
    ".mp4"@
}

/// The staged payload of a job whose staging slot is `slot`: it lies at the
/// slot itself, with the video extension appended where `extension` is set
/// and the payload is a video.
pub open spec fn staged(slot: Seq<char>, kind: Type, extension: bool) -> MediaView {
    MediaView {
        location: if extension && kind == Type::Video {
            slot + video_extension()
        } else {
            slot
        },
        kind,
    }
}

/// Calls `uuid::Uuid::new_v4` and renders the identifier with its `Display`
/// impl. Each call gives another identifier; the contract states the shape
/// that every one of them has. The call fails only where the operating
/// system cannot supply random bytes.
#[verifier::external_body]
pub(crate) fn fresh_id() -> (r: String)
    ensures
        is_uuid_text(r@),
{
    uuid::Uuid::new_v4().to_string()
}

/// A UUID holds no path separator and no dot.
pub proof fn lemma_uuid_is_plain(id: Seq<char>)
    requires
        is_uuid_text(id),
    ensures
        forall|j: int| 0 <= j < id.len() ==> id[j] != '/' && id[j] != '.',
{
    assert forall|j: int| 0 <= j < id.len() implies id[j] != '/' && id[j] != '.' by {
        if j == 8 || j == 13 || j == 18 || j == 23 {
            assert(id[j] == '-');
        } else {
            assert(is_hex_lower(id[j]));
        }
    }
}

/// A staging slot of its own in the scratch directory: a path that no other
/// call gets, but for a collision of random identifiers.
pub fn allocate(scratch: &str) -> (r: String)
    ensures
        exists|id: Seq<char>| is_uuid_text(id) && r@ == join(scratch@, id),
{
    let id = fresh_id();
    join_path(scratch, id.as_str())
}

/// Describes the payload staged in `slot`.
pub fn stage(slot: &str, kind: Type, extension: bool) -> (r: Media)
    ensures
        r@ == staged(slot@, kind, extension),
{
    let location = match kind {
        Type::Video => if extension {
            concatenate(slot, ".mp4")
        } else {
            slot.to_owned()
        },
        Type::Image => slot.to_owned(),
    };
    Media { location, kind }
}

} // verus!
