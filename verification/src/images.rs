use vstd::prelude::*;
use vstd::string::StringExecFns;
use crate::data_url::starts_with_text;

verus! {

/// A decoded bitmap: its size in pixels and its pixels, row by row, four
/// bytes each in the order red, green, blue, alpha.
#[derive(Debug, Clone)]
pub struct DecodedImage {
    pub width: u32,
    pub height: u32,
    pub rgba: Vec<u8>,
}

/// image's `ImageError`, carried through unread.
#[verifier::external_type_specification]
#[verifier::external_body]
pub struct ExImageError(image::ImageError);

/// `image::load_from_memory`, its result turned to RGBA by
/// `DynamicImage::to_rgba8` and taken apart into size and pixels. Nothing is
/// claimed of what it returns: which formats it reads depends on the
/// decoding hooks that are registered in the process.
#[verifier::external_body]
fn decode_rgba(bytes: &[u8]) -> (decoded: Result<DecodedImage, image::ImageError>) {
    let rgba = image::load_from_memory(bytes)?.to_rgba8();
    Ok(DecodedImage { width: rgba.width(), height: rgba.height(), rgba: rgba.into_raw() })
}

/// A bitmap can be drawn from when it has an area, its sides fit a signed
/// 32-bit size, and it holds four bytes for each of its pixels.
pub open spec fn drawable(width: u32, height: u32, len: nat) -> bool {
    &&& 0 < width <= i32::MAX
    &&& 0 < height <= i32::MAX
    &&& len >= 4 * width * height
}

/// What a message of a decoding fault starts with.
pub open spec fn decode_fault_prefix() -> Seq<char> {
    "Failed to decode image: "@
}

impl DecodedImage {
    pub open spec fn is_drawable(self) -> bool {
        drawable(self.width, self.height, self.rgba@.len())
    }

    /// Tells whether the bitmap can be drawn from.
    pub fn check_drawable(&self) -> (yes: bool)
        ensures
            yes == self.is_drawable(),
    {
        if self.width == 0 || self.height == 0 || self.width > 0x7fff_ffff || self.height
            > 0x7fff_ffff {
            return false;
        }
        let w: u128 = self.width as u128;
        let h: u128 = self.height as u128;
        assert(4 * w * h <= 4 * 0x7fff_ffff * 0x7fff_ffff) by (nonlinear_arith)
            requires
                0 < w <= 0x7fff_ffff,
                0 < h <= 0x7fff_ffff,
        ;
        let needed: u128 = 4 * w * h;
        self.rgba.len() as u128 >= needed
    }
}

/// What no bitmap that cannot be drawn from gets past.
pub open spec fn undrawable_fault() -> Seq<char> {
    "Failed to create skia image from decoded data"@
}

/// Judges what the decoder gave, an image or the description of its fault:
/// an image that can be drawn from is passed on; one that cannot is refused;
/// a fault is reported under its description.
pub fn accept_decoded(decoded: Result<DecodedImage, String>) -> (image: Result<DecodedImage, String>)
    ensures
        match decoded {
            Ok(bitmap) => if bitmap.is_drawable() {
                image == Ok::<DecodedImage, String>(bitmap)
            } else {
                image is Err && image->Err_0@ == undrawable_fault()
            },
            Err(detail) => image is Err && image->Err_0@ == decode_fault_prefix() + detail@,
        },
{
    match decoded {
        Ok(bitmap) => {
            if bitmap.check_drawable() {
                Ok(bitmap)
            } else {
                Err(String::from_str("Failed to create skia image from decoded data"))
            }
        },
        Err(detail) => {
            let mut message = String::from_str("Failed to decode image: ");
            message.append(detail.as_str());
            Err(message)
        },
    }
}

/// Decodes image bytes to RGBA pixels. Whatever the decoder makes of the
/// bytes, an image that comes back can be drawn from, and a refusal says
/// whether the bytes were no readable image or the image was not fit to
/// draw from.
pub fn decode_image(bytes: &[u8]) -> (image: Result<DecodedImage, String>)
    ensures
        match image {
            Ok(bitmap) => bitmap.is_drawable(),
            Err(message) => message@ == undrawable_fault() || starts_with_text(
                message@,
                decode_fault_prefix(),
            ),
        },
{
    let decoded = match decode_rgba(bytes) {
        Ok(bitmap) => Ok(bitmap),
        Err(e) => Err(e.to_string()),
    };
    let ghost detail = if decoded is Err {
        decoded->Err_0@
    } else {
        Seq::<char>::empty()
    };
    let image = accept_decoded(decoded);
    proof {
        if image is Err && image->Err_0@ != undrawable_fault() {
            assert((decode_fault_prefix() + detail).subrange(0, decode_fault_prefix().len() as int)
                =~= decode_fault_prefix());
        }
    }
    image
}

} // verus!
