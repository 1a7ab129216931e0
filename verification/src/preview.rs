use std::io::Cursor;

use base64::engine::general_purpose::STANDARD;
use base64::Engine;
use image::{DynamicImage, ImageError, ImageFormat, RgbaImage};
use vstd::prelude::*;
use vstd::string::StringExecFns;

verus! {

/// Preview images larger than this on either side are scaled down to fit a
/// square of this size, to bound the cost of sending and decoding them.
pub const PREVIEW_LIMIT: u32 = 384;

/// An RGBA image: width, height and four bytes per pixel, row by row.
pub struct Pixels {
    width: u32,
    height: u32,
    rgba: Vec<u8>,
}

impl View for Pixels {
    type V = (u32, u32, Seq<u8>);

    closed spec fn view(&self) -> (u32, u32, Seq<u8>) {
        (self.width, self.height, self.rgba@)
    }
}

/// Whether `len` bytes are exactly the pixels of a `width` by `height` image.
pub open spec fn fits(width: u32, height: u32, len: int) -> bool {
    len == 4 * width * height
}

impl Pixels {
    #[verifier::type_invariant]
    spec fn well_formed(self) -> bool {
        fits(self.width, self.height, self.rgba@.len() as int)
    }

    /// The image with these pixels, if there are exactly four bytes for each.
    pub fn from_rgba(width: u32, height: u32, rgba: Vec<u8>) -> (r: Option<Pixels>)
        ensures
            fits(width, height, rgba@.len() as int) ==> r is Some && r->0@ == (width, height, rgba@),
            !fits(width, height, rgba@.len() as int) ==> r is None,
    {
        let len: u128 = rgba.len() as u128;
        let w: u128 = width as u128;
        let h: u128 = height as u128;
        assert(w * h <= 0xffff_ffff_ffff_ffff_ffff_ffff) by (nonlinear_arith)
            requires
                w <= 0xffff_ffff,
                h <= 0xffff_ffff,
        ;
        let want: u128 = 4 * (w * h);
        assert(4 * width * height == want) by (nonlinear_arith)
            requires
                w == width,
                h == height,
                want == 4 * (w * h),
        ;
        if len == want {
            Some(Pixels { width, height, rgba })
        } else {
            None
        }
    }

    pub fn width(&self) -> (w: u32)
        ensures
            w == self@.0,
    {
        self.width
    }

    pub fn height(&self) -> (h: u32)
        ensures
            h == self@.1,
    {
        self.height
    }

    /// The pixel bytes, four for each pixel.
    pub fn rgba(&self) -> (b: &Vec<u8>)
        ensures
            b@ == self@.2,
            fits(self@.0, self@.1, b@.len() as int),
    {
        proof {
            use_type_invariant(self);
        }
        &self.rgba
    }

    /// Gives up the image for its pixel bytes.
    pub fn into_rgba(self) -> (b: Vec<u8>)
        ensures
            b@ == self@.2,
            fits(self@.0, self@.1, b@.len() as int),
    {
        proof {
            use_type_invariant(&self);
        }
        self.rgba
    }
}

/// What `image`'s `DynamicImage::thumbnail` makes of an RGBA image.
pub uninterp spec fn thumbnail_of(
    width: u32,
    height: u32,
    rgba: Seq<u8>,
    max_width: u32,
    max_height: u32,
) -> (u32, u32, Seq<u8>);

/// The PNG file that `image` writes for an RGBA image, or `None` where it
/// reports an error.
pub uninterp spec fn png_encoding(width: u32, height: u32, rgba: Seq<u8>) -> Option<Seq<u8>>;

/// The character of the standard base64 alphabet (RFC 4648) for a six-bit
/// value: `A`-`Z`, `a`-`z`, `0`-`9`, `+`, `/`.
pub open spec fn base64_digit(v: int) -> char {
    if v < 26 {
        (65 + v) as char
    } else if v < 52 {
        (97 + (v - 26)) as char
    } else if v < 62 {
        (48 + (v - 52)) as char
    } else if v == 62 {
        '+'
    } else {
        '/'
    }
}

/// The standard, padded base64 text of the bytes: each group of three bytes
/// becomes four characters, six bits each, most significant first; a last
/// group of one or two bytes is filled with zero bits and `=` signs.
pub open spec fn base64_standard(b: Seq<u8>) -> Seq<char>
    decreases b.len(),
{
    if b.len() == 0 {
        Seq::empty()
    } else if b.len() == 1 {
        seq![base64_digit((b[0] as int) / 4), base64_digit(((b[0] as int) % 4) * 16), '=', '=']
    } else if b.len() == 2 {
        seq![
            base64_digit((b[0] as int) / 4),
            base64_digit(((b[0] as int) % 4) * 16 + (b[1] as int) / 16),
            base64_digit(((b[1] as int) % 16) * 4),
            '=',
        ]
    } else {
        seq![
            base64_digit((b[0] as int) / 4),
            base64_digit(((b[0] as int) % 4) * 16 + (b[1] as int) / 16),
            base64_digit(((b[1] as int) % 16) * 4 + (b[2] as int) / 64),
            base64_digit((b[2] as int) % 64),
        ] + base64_standard(b.subrange(3, b.len() as int))
    }
}

/// The length of the padded base64 text of `n` bytes.
pub open spec fn base64_len(n: int) -> int {
    4 * ((n + 2) / 3)
}

/// The 64 six-bit values have 64 different base64 characters, each an ASCII
/// letter, digit, `+` or `/`.
pub proof fn base64_digits_are_distinct(v: int, w: int)
    requires
        0 <= v < 64,
        0 <= w < 64,
    ensures
        v != w ==> base64_digit(v) != base64_digit(w),
        ('A' <= base64_digit(v) <= 'Z') || ('a' <= base64_digit(v) <= 'z') || ('0' <= base64_digit(
            v,
        ) <= '9') || base64_digit(v) == '+' || base64_digit(v) == '/',
{
}

/// Base64 text is four characters for every started group of three bytes.
pub proof fn base64_length(b: Seq<u8>)
    ensures
        base64_standard(b).len() == base64_len(b.len() as int),
    decreases b.len(),
{
    if b.len() > 2 {
        base64_length(b.subrange(3, b.len() as int));
    }
}

#[verifier::external_type_specification]
#[verifier::external_body]
pub struct ExImageError(ImageError);

/// Calls `image::DynamicImage::thumbnail` on the image. Trusted to return
/// the image that [`thumbnail_of`] names, with four bytes per pixel (as an
/// `RgbaImage` holds). For positive bounds it fits within them, as the
/// documentation promises; the crate's `resize_dimensions` makes each side at
/// least 1, so zero bounds are left out. It scales by the smaller of the two
/// bound-to-side ratios and rounds, so with a square bound the longer side of
/// a nonempty image becomes exactly the bound.
#[verifier::external_body]
fn thumbnail(image: &Pixels, max_width: u32, max_height: u32) -> (r: Pixels)
    requires
        max_width >= 1,
        max_height >= 1,
    ensures
        r@ == thumbnail_of(image@.0, image@.1, image@.2, max_width, max_height),
        r@.0 <= max_width,
        r@.1 <= max_height,
        max_width == max_height && image@.0 >= image@.1 && image@.0 >= 1 ==> r@.0 == max_width,
        max_width == max_height && image@.1 >= image@.0 && image@.1 >= 1 ==> r@.1 == max_height,
        fits(r@.0, r@.1, r@.2.len() as int),
{
    let source = RgbaImage::from_raw(image.width, image.height, image.rgba.clone()).unwrap();
    let small = DynamicImage::ImageRgba8(source).thumbnail(max_width, max_height).into_rgba8();
    Pixels { width: small.width(), height: small.height(), rgba: small.into_raw() }
}

/// Writes the image as PNG into memory with `image::DynamicImage::write_to`.
/// Trusted to succeed or fail as [`png_encoding`] names, and to return the
/// bytes it names.
#[verifier::external_body]
fn encode_png(image: &Pixels) -> (r: Result<Vec<u8>, ImageError>)
    ensures
        match r {
            Ok(bytes) => png_encoding(image@.0, image@.1, image@.2) == Some(bytes@),
            Err(_) => png_encoding(image@.0, image@.1, image@.2) is None,
        },
{
    let source = RgbaImage::from_raw(image.width, image.height, image.rgba.clone()).unwrap();
    let mut buffer = Cursor::new(Vec::new());
    match DynamicImage::ImageRgba8(source).write_to(&mut buffer, ImageFormat::Png) {
        Ok(()) => Ok(buffer.into_inner()),
        Err(error) => Err(error),
    }
}

/// Encodes the bytes with `base64`'s `STANDARD` engine (standard alphabet,
/// padded). Trusted to return the text [`base64_standard`] defines. The
/// engine panics where the length that `base64::encoded_len` computes
/// overflows `usize`, which `requires` leaves out.
#[verifier::external_body]
fn encode_base64(bytes: &[u8]) -> (r: String)
    requires
        base64_len(bytes@.len() as int) <= usize::MAX,
    ensures
        r@ == base64_standard(bytes@),
{
    STANDARD.encode(bytes)
}

/// Whether a preview image has to be scaled down.
pub open spec fn too_large(width: u32, height: u32) -> bool {
    width > PREVIEW_LIMIT || height > PREVIEW_LIMIT
}

/// The image that goes into a preview: the image itself, or its thumbnail
/// within [`PREVIEW_LIMIT`] where it is larger.
pub open spec fn preview_image(v: (u32, u32, Seq<u8>)) -> (u32, u32, Seq<u8>) {
    if too_large(v.0, v.1) {
        thumbnail_of(v.0, v.1, v.2, PREVIEW_LIMIT, PREVIEW_LIMIT)
    } else {
        v
    }
}

/// An image within [`PREVIEW_LIMIT`] on both sides goes into the preview as
/// it is; only a larger one is replaced by its thumbnail.
pub proof fn small_images_are_not_scaled(v: (u32, u32, Seq<u8>))
    ensures
        v.0 <= PREVIEW_LIMIT && v.1 <= PREVIEW_LIMIT ==> preview_image(v) == v,
        v.0 > PREVIEW_LIMIT || v.1 > PREVIEW_LIMIT ==> preview_image(v) == thumbnail_of(
            v.0,
            v.1,
            v.2,
            PREVIEW_LIMIT,
            PREVIEW_LIMIT,
        ),
{
}

pub open spec fn data_uri_prefix() -> Seq<char> {
    "data:image/png;base64,"@
}

pub open spec fn base64_overflow_text() -> Seq<char> {
    "integer overflow when calculating buffer size"@
}

/// Renders an image for the panel as a `data:` URI holding a base64 PNG,
/// scaled down first where it exceeds [`PREVIEW_LIMIT`], to fit that square
/// with its longer side exactly at the limit. Fails with the
/// encoder's message where PNG encoding fails, and where the base64 text would
/// not fit in memory.
pub fn png(image: &Pixels) -> (r: Result<String, String>)
    ensures
        ({
            let v = preview_image(image@);
            match png_encoding(v.0, v.1, v.2) {
                None => r is Err,
                Some(bytes) => if base64_len(bytes.len() as int) <= usize::MAX {
                    r is Ok && r->Ok_0@ == data_uri_prefix() + base64_standard(bytes)
                } else {
                    r is Err && r->Err_0@ == base64_overflow_text()
                },
            }
        }),
        too_large(image@.0, image@.1) ==> preview_image(image@).0 <= PREVIEW_LIMIT
            && preview_image(image@).1 <= PREVIEW_LIMIT,
        too_large(image@.0, image@.1) && image@.0 >= image@.1 ==> preview_image(image@).0
            == PREVIEW_LIMIT,
        too_large(image@.0, image@.1) && image@.1 >= image@.0 ==> preview_image(image@).1
            == PREVIEW_LIMIT,
{
    let encoded = if image.width() > PREVIEW_LIMIT || image.height() > PREVIEW_LIMIT {
        let small = thumbnail(image, PREVIEW_LIMIT, PREVIEW_LIMIT);
        encode_png(&small)
    } else {
        encode_png(image)
    };
    let bytes = match encoded {
        Ok(bytes) => bytes,
        Err(error) => {
            return Err(error.to_string());
        },
    };
    let n: usize = bytes.len();
    let groups: usize = n / 3 + if n % 3 > 0 {
        1
    } else {
        0
    };
    if groups > usize::MAX / 4 {
        return Err(String::from_str("integer overflow when calculating buffer size"));
    }
    let text = encode_base64(bytes.as_slice());
    Ok(String::from_str("data:image/png;base64,").concat(text.as_str()))
}

} // verus!
