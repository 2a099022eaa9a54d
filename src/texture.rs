//! Laying out decoded image pixels for a 2D texture upload.
use vstd::prelude::*;

verus! {

/// Bytes per pixel of an RGBA8 image.
pub const BYTES_PER_PIXEL: u32 = 4;

/// Why a texture cannot be made from an encoded image.
#[derive(Clone, Copy, Debug, PartialEq, Eq, Structural)]
pub enum TextureError {
    /// The image codec could not read the bytes.
    Decode,
    /// The image has no area, exceeds the device's texture size, or its
    /// pixel bytes do not match its extent.
    Upload,
}

/// What the image codec hands back: an extent and RGBA8 pixels, row by row.
pub struct DecodedImage {
    pub width: u32,
    pub height: u32,
    pub pixels: Vec<u8>,
}

/// Pixels ready to be written into a 2D texture of the image's extent.
pub struct TextureUpload {
    pub width: u32,
    pub height: u32,
    /// Distance in bytes between the starts of two rows.
    pub bytes_per_row: u32,
    pub rows_per_image: u32,
    pub pixels: Vec<u8>,
}

/// Whether an image of this extent and pixel length fits a texture whose
/// sides may be at most `max_dimension`.
pub open spec fn uploadable(width: u32, height: u32, pixel_len: int, max_dimension: u32) -> bool {
    &&& 0 < width <= max_dimension
    &&& 0 < height <= max_dimension
    &&& BYTES_PER_PIXEL * width <= u32::MAX
    &&& pixel_len == BYTES_PER_PIXEL * width * height
}

/// What the image codec makes of encoded bytes: the extent and the RGBA8
/// pixels, row by row, or `None` where it cannot read them.
pub uninterp spec fn decoded_of(bytes: Seq<u8>) -> Option<(u32, u32, Seq<u8>)>;

/// Relies on `image::load_from_memory`, which guesses the format from the
/// bytes and decodes them, and on `DynamicImage::to_rgba8`, which converts
/// the result to RGBA8; both depend on the bytes alone.
#[verifier::external_body]
fn decode_rgba8(bytes: &[u8]) -> (r: Option<DecodedImage>)
    ensures
        match decoded_of(bytes@) {
            None => r is None,
            Some((w, h, p)) => r matches Some(img) && img.width == w && img.height == h && img.pixels@ == p,
        },
{
    image::load_from_memory(bytes).ok().map(|img| {
        let rgba = img.to_rgba8();
        DecodedImage { width: rgba.width(), height: rgba.height(), pixels: rgba.into_raw() }
    })
}

/// `r` is the upload made of the codec's outcome `decoded` (`None` where it
/// failed) for a device whose texture sides may be at most `max_dimension`.
pub open spec fn upload_of(
    decoded: Option<(u32, u32, Seq<u8>)>,
    max_dimension: u32,
    r: Result<TextureUpload, TextureError>,
) -> bool {
    match decoded {
        None => r == Err::<TextureUpload, TextureError>(TextureError::Decode),
        Some((width, height, pixels)) => if uploadable(width, height, pixels.len() as int, max_dimension) {
            &&& r is Ok
            &&& r->Ok_0.width == width
            &&& r->Ok_0.height == height
            &&& r->Ok_0.bytes_per_row == BYTES_PER_PIXEL * width
            &&& r->Ok_0.rows_per_image == height
            &&& r->Ok_0.pixels@ == pixels
        } else {
            r == Err::<TextureUpload, TextureError>(TextureError::Upload)
        },
    }
}

impl TextureUpload {
    /// Decodes an encoded image and lays it out for upload.
    pub fn from_encoded(bytes: &[u8], max_dimension: u32) -> (r: Result<TextureUpload, TextureError>)
        ensures
            upload_of(decoded_of(bytes@), max_dimension, r),
    {
        Self::prepare(decode_rgba8(bytes), max_dimension)
    }

    /// Turns the codec's outcome (`None` where it failed) into an upload
    /// whose rows are `4 * width` bytes apart.
    pub fn prepare(decoded: Option<DecodedImage>, max_dimension: u32) -> (r: Result<
        TextureUpload,
        TextureError,
    >)
        ensures
            upload_of(
                match decoded {
                    Some(img) => Some((img.width, img.height, img.pixels@)),
                    None => None,
                },
                max_dimension,
                r,
            ),
    {
        let img = match decoded {
            Some(img) => img,
            None => return Err(TextureError::Decode),
        };
        if img.width == 0 || img.width > max_dimension || img.height == 0 || img.height > max_dimension {
            return Err(TextureError::Upload);
        }
        if img.width > u32::MAX / BYTES_PER_PIXEL {
            return Err(TextureError::Upload);
        }
        let bytes_per_row: u32 = BYTES_PER_PIXEL * img.width;
        assert(bytes_per_row as u64 * img.height as u64 <= u64::MAX) by (nonlinear_arith)
            requires
                bytes_per_row <= u32::MAX,
                img.height <= u32::MAX,
        ;
        let expected: u64 = bytes_per_row as u64 * img.height as u64;
        assert(expected == BYTES_PER_PIXEL * img.width * img.height) by (nonlinear_arith)
            requires
                bytes_per_row == BYTES_PER_PIXEL * img.width,
                expected == bytes_per_row * img.height,
        ;
        if img.pixels.len() as u64 != expected {
            return Err(TextureError::Upload);
        }
        Ok(TextureUpload {
            width: img.width,
            height: img.height,
            bytes_per_row,
            rows_per_image: img.height,
            pixels: img.pixels,
        })
    }
}

} // verus!
