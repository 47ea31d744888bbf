use vstd::prelude::*;
use crate::media::{Folder, Type};
use crate::text::is_suffix;

verus! {

/// A decimal unit of file size.
#[derive(Debug, Clone, Copy, PartialEq, Eq, Structural)]
pub enum Unit {
    B,
    KB,
    MB,
    GB,
    TB,
    PB,
    EB,
}

impl Unit {
    /// How many bytes make one of the unit.
    pub open spec fn bytes(self) -> nat {
        match self {
            Unit::B => 1,
            Unit::KB => 1_000,
            Unit::MB => 1_000_000,
            Unit::GB => 1_000_000_000,
            Unit::TB => 1_000_000_000_000,
            Unit::PB => 1_000_000_000_000_000,
            Unit::EB => 1_000_000_000_000_000_000,
        }
    }

    /// How the unit is written.
    pub open spec fn symbol(self) -> Seq<char> {
        match self {
            Unit::B => "B"@,
            Unit::KB => "KB"@,
            Unit::MB => "MB"@,
            Unit::GB => "GB"@,
            Unit::TB => "TB"@,
            Unit::PB => "PB"@,
            Unit::EB => "EB"@,
        }
    }

    /// The unit that a size of `len` bytes is given in: the largest in which
    /// it comes to one at least, and bytes where it is zero.
    pub open spec fn fit(len: u64) -> Unit {
        if len >= Unit::EB.bytes() {
            Unit::EB
        } else if len >= Unit::PB.bytes() {
            Unit::PB
        } else if len >= Unit::TB.bytes() {
            Unit::TB
        } else if len >= Unit::GB.bytes() {
            Unit::GB
        } else if len >= Unit::MB.bytes() {
            Unit::MB
        } else if len >= Unit::KB.bytes() {
            Unit::KB
        } else {
            Unit::B
        }
    }

    /// Chooses the unit for a size of `len` bytes.
    pub fn of(len: u64) -> (r: Unit)
        ensures
            r == Unit::fit(len),
    {
        if len >= 1_000_000_000_000_000_000 {
            Unit::EB
        } else if len >= 1_000_000_000_000_000 {
            Unit::PB
        } else if len >= 1_000_000_000_000 {
            Unit::TB
        } else if len >= 1_000_000_000 {
            Unit::GB
        } else if len >= 1_000_000 {
            Unit::MB
        } else if len >= 1_000 {
            Unit::KB
        } else {
            Unit::B
        }
    }
}

/// A size that is not zero comes to one at least in its unit, and to less
/// than one in every larger unit.
pub proof fn lemma_unit_is_the_largest_that_fits(len: u64, other: Unit)
    ensures
        len > 0 ==> Unit::fit(len).bytes() <= len,
        other.bytes() <= len ==> other.bytes() <= Unit::fit(len).bytes(),
        other.bytes() > Unit::fit(len).bytes() ==> len < other.bytes(),
{
}

/// What a caller learns of stored media: never where it lies.
#[derive(Debug, PartialEq, Eq)]
pub struct MediaInfo {
    /// The size of the stored file in a unit fit for reading.
    pub size: String,
    pub kind: Type,
    pub folder: Folder,
}

/// The mathematical value of a [`MediaInfo`].
pub struct MediaInfoView {
    pub size: Seq<char>,
    pub kind: Type,
    pub folder: Folder,
}

impl View for MediaInfo {
    type V = MediaInfoView;

    open spec fn view(&self) -> MediaInfoView {
        MediaInfoView { size: self.size@, kind: self.kind, folder: self.folder }
    }
}

/// The text that `byte_unit` renders for `len` bytes in the given unit with
/// the given number of fractional digits.
pub uninterp spec fn size_text(len: u64, unit: Unit, digits: usize) -> Seq<char>;

/// How many fractional digits a size is reported with.
pub const DIGITS: usize = 2;

/// The report on a stored file of `len` bytes: its size in the unit that
/// fits, with two fractional digits.
pub open spec fn reported(len: u64, kind: Type, folder: Folder) -> MediaInfoView {
    MediaInfoView { size: size_text(len, Unit::fit(len), DIGITS), kind, folder }
}

/// Calls `byte_unit::Byte::from_bytes`, `Byte::get_adjusted_unit` with the
/// unit and `AdjustedByte::format`. The contract claims that the text is a
/// function of the three arguments, under the name `size_text`, and that it
/// ends in a space and the unit's symbol, as the crate's format strings have
/// it. The number of digits is kept within what the formatter of the standard
/// library accepts as a precision.
#[verifier::external_body]
pub(crate) fn format_size(len: u64, unit: Unit, digits: usize) -> (r: String)
    requires
        digits <= 0xFFFF,
    ensures
        r@ == size_text(len, unit, digits),
        is_suffix(seq![' '] + unit.symbol(), r@),
{
    let outside = match unit {
        Unit::B => byte_unit::ByteUnit::B,
        Unit::KB => byte_unit::ByteUnit::KB,
        Unit::MB => byte_unit::ByteUnit::MB,
        Unit::GB => byte_unit::ByteUnit::GB,
        Unit::TB => byte_unit::ByteUnit::TB,
        Unit::PB => byte_unit::ByteUnit::PB,
        Unit::EB => byte_unit::ByteUnit::EB,
    };
    byte_unit::Byte::from_bytes(u128::from(len)).get_adjusted_unit(outside).format(digits)
}

impl MediaInfo {
    /// Reports on a stored file of `len` bytes. The size ends in the symbol
    /// of the unit that fits.
    pub fn new(len: u64, folder: Folder, kind: Type) -> (r: MediaInfo)
        ensures
            r@ == reported(len, kind, folder),
            is_suffix(seq![' '] + Unit::fit(len).symbol(), r.size@),
    {
        MediaInfo { size: format_size(len, Unit::of(len), DIGITS), kind, folder }
    }
}

} // verus!
