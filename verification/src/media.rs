use vstd::prelude::*;

verus! {

/// What a staged payload is.
#[derive(Debug, Clone, Copy, PartialEq, Eq, Structural)]
pub enum Type {
    Image,
    Video,
}

/// The retention folder a caller files media under. It only partitions the
/// store into two subdirectories.
#[derive(Debug, Clone, Copy, PartialEq, Eq, Structural)]
pub enum Folder {
    Safe,
    Unsafe,
}

impl Folder {
    /// The name of the subdirectory of the store that belongs to this folder.
    pub open spec fn name(self) -> Seq<char> {
        match self {
            Folder::Safe => "safe"@,
            Folder::Unsafe => "unsafe"@,
        }
    }

    /// The other folder.
    pub open spec fn other(self) -> Folder {
        match self {
            Folder::Safe => Folder::Unsafe,
            Folder::Unsafe => Folder::Safe,
        }
    }

    /// The subdirectory name as text.
    pub fn as_ref(&self) -> (r: &'static str)
        ensures
            r@ == self.name(),
    {
        match self {
            Folder::Safe => "safe",
            Folder::Unsafe => "unsafe",
        }
    }
}

/// A staged payload: where its bytes lie and what they are.
#[derive(Debug, PartialEq, Eq)]
pub struct Media {
    pub location: String,
    pub kind: Type,
}

/// The mathematical value of a [`Media`].
pub struct MediaView {
    pub location: Seq<char>,
    pub kind: Type,
}

impl View for Media {
    type V = MediaView;

    open spec fn view(&self) -> MediaView {
        MediaView { location: self.location@, kind: self.kind }
    }
}

} // verus!
