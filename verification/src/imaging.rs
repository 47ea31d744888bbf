use vstd::prelude::*;

verus! {

/// `image::DynamicImage`, a decoded image; nothing is read from it here.
#[verifier::external_type_specification]
#[verifier::external_body]
pub struct ExDynamicImage(image::DynamicImage);

/// `image::ImageError`, why decoding or encoding failed; it is not looked into.
#[verifier::external_type_specification]
#[verifier::external_body]
pub struct ExImageError(image::ImageError);

/// A decoded image together with the bytes that it was decoded from. The
/// fields are private and only `decode` makes a value, so the pixels are
/// always those that the source decodes to: what is said below of a bitmap,
/// as a function of its source, rests on that.
#[derive(Debug)]
pub struct Bitmap {
    source: Vec<u8>,
    pixels: image::DynamicImage,
}

impl View for Bitmap {
    type V = Seq<u8>;

    /// The encoded bytes that the image was decoded from.
    closed spec fn view(&self) -> Seq<u8> {
        self.source@
    }
}

/// Whether the `image` crate recognises the format of `bytes` and decodes
/// them.
pub uninterp spec fn decodes(bytes: Seq<u8>) -> bool;

/// Width and height of the image that `bytes` decode to.
pub uninterp spec fn dimensions_of(bytes: Seq<u8>) -> (u32, u32);

/// The perceptual hash that `image_hasher` computes with its gradient
/// algorithm, at a grid of `width` by `height` bits, for the image that `bytes`
/// decode to.
pub uninterp spec fn gradient_hash_of(bytes: Seq<u8>, width: u32, height: u32) -> Seq<u8>;

/// The PNG encoding of the image that `bytes` decode to; `None` where the
/// encoder refuses it.
pub uninterp spec fn png_of(bytes: Seq<u8>) -> Option<Seq<u8>>;

/// Whether `c` is a digit of lower-case hexadecimal.
pub open spec fn is_hex_lower(c: char) -> bool {
    ('0' <= c && c <= '9') || ('a' <= c && c <= 'f')
}

/// The `k`-th digit of lower-case hexadecimal.
pub open spec fn hex_digit(k: int) -> char {
    "0123456789abcdef"@[k]
}

/// The lower-case hexadecimal text of `bytes`: two digits for each byte, the
/// high one first.
pub open spec fn hex(bytes: Seq<u8>) -> Seq<char> {
    Seq::new(
        2 * bytes.len(),
        |i: int|
            if i % 2 == 0 {
                hex_digit(bytes[i / 2] as int / 16)
            } else {
                hex_digit(bytes[i / 2] as int % 16)
            },
    )
}

/// Calls `image::load_from_memory`. The contract claims that success is a
/// function of the bytes, under the name `decodes`, and that the bitmap
/// keeps the bytes it was given.
#[verifier::external_body]
pub(crate) fn decode(bytes: Vec<u8>) -> (r: Result<Bitmap, image::ImageError>)
    ensures
        match r {
            Ok(bitmap) => decodes(bytes@) && bitmap@ == bytes@,
            Err(_) => !decodes(bytes@),
        },
{
    let pixels = image::load_from_memory(&bytes)?;
    Ok(Bitmap { source: bytes, pixels })
}

/// Calls `image::GenericImageView::dimensions` on the decoded image. The
/// contract names the result as a function of the bytes that the image was
/// decoded from.
#[verifier::external_body]
pub(crate) fn dimensions(bitmap: &Bitmap) -> (r: (u32, u32))
    ensures
        r == dimensions_of(bitmap@),
{
    image::GenericImageView::dimensions(&bitmap.pixels)
}

/// Builds an `image_hasher::Hasher` for the gradient algorithm at the given
/// grid and calls `Hasher::hash_image` on the decoded image. The contract
/// names the hash's bytes as a function of the source bytes and the grid. The
/// crate scales the image to the grid, which needs an image that is not
/// empty, and adds one to the grid's width; the bound keeps the scaled image
/// small.
#[verifier::external_body]
pub(crate) fn gradient_hash(bitmap: &Bitmap, width: u32, height: u32) -> (r: Vec<u8>)
    requires
        dimensions_of(bitmap@).0 > 0,
        dimensions_of(bitmap@).1 > 0,
        0 < width <= 1024,
        0 < height <= 1024,
    ensures
        r@ == gradient_hash_of(bitmap@, width, height),
{
    let hasher = image_hasher::HasherConfig::new()
        .hash_alg(image_hasher::HashAlg::Gradient)
        .hash_size(width, height)
        .to_hasher();
    hasher.hash_image(&bitmap.pixels).as_bytes().to_vec()
}

/// Calls `image::DynamicImage::write_to` with the PNG format on a buffer in
/// memory. The contract names the encoding as a function of the source bytes.
#[verifier::external_body]
pub(crate) fn to_png(bitmap: &Bitmap) -> (r: Result<Vec<u8>, image::ImageError>)
    ensures
        match r {
            Ok(png) => png_of(bitmap@) == Some(png@),
            Err(_) => png_of(bitmap@) is None,
        },
{
    let mut buffer = std::io::Cursor::new(Vec::new());
    bitmap.pixels.write_to(&mut buffer, image::ImageFormat::Png)?;
    Ok(buffer.into_inner())
}

/// Calls `hex::encode`, which writes each byte as two lower-case hexadecimal
/// digits.
#[verifier::external_body]
pub(crate) fn hex_encode(bytes: &Vec<u8>) -> (r: String)
    ensures
        r@ == hex(bytes@),
{
    hex::encode(bytes)
}

/// The sixteen digits differ from each other.
pub proof fn lemma_hex_digits_differ(a: int, b: int)
    requires
        0 <= a < 16,
        0 <= b < 16,
        hex_digit(a) == hex_digit(b),
    ensures
        a == b,
{
    reveal_strlit("0123456789abcdef");
}

/// The two digits that stand for the `k`-th byte.
pub proof fn lemma_hex_at(bytes: Seq<u8>, k: int)
    requires
        0 <= k < bytes.len(),
    ensures
        hex(bytes)[2 * k] == hex_digit(bytes[k] as int / 16),
        hex(bytes)[2 * k + 1] == hex_digit(bytes[k] as int % 16),
{
    assert((2 * k) % 2 == 0 && (2 * k) / 2 == k);
    assert((2 * k + 1) % 2 == 1 && (2 * k + 1) / 2 == k);
}

/// Different bytes have different hexadecimal texts.
pub proof fn lemma_hex_injective(a: Seq<u8>, b: Seq<u8>)
    requires
        hex(a) == hex(b),
    ensures
        a == b,
{
    assert(hex(a).len() == 2 * a.len());
    assert(hex(b).len() == 2 * b.len());
    assert(a.len() == b.len());
    assert forall|k: int| 0 <= k < a.len() implies a[k] == b[k] by {
        lemma_hex_at(a, k);
        lemma_hex_at(b, k);
        lemma_hex_digits_differ(a[k] as int / 16, b[k] as int / 16);
        lemma_hex_digits_differ(a[k] as int % 16, b[k] as int % 16);
    }
    assert(a =~= b);
}

/// A hexadecimal text has two characters for each byte, all of them digits
/// of lower-case hexadecimal.
pub proof fn lemma_hex_is_lower_case(bytes: Seq<u8>)
    ensures
        hex(bytes).len() == 2 * bytes.len(),
        forall|j: int| 0 <= j < hex(bytes).len() ==> is_hex_lower(#[trigger] hex(bytes)[j]),
{
    reveal_strlit("0123456789abcdef");
    assert forall|j: int| 0 <= j < hex(bytes).len() implies is_hex_lower(
        #[trigger] hex(bytes)[j],
    ) by {
        let d = if j % 2 == 0 {
            bytes[j / 2] as int / 16
        } else {
            bytes[j / 2] as int % 16
        };
        assert(0 <= d < 16);
        assert(hex(bytes)[j] == hex_digit(d));
    }
}

} // verus!
