//! Timestamps and conversions between frames and images.
use vstd::prelude::*;
use vstd::string::*;
use core::time::Duration;
use image::{DynamicImage, ImageBuffer, Rgba, RgbaImage};
use crate::common::error::CleverestError;
use crate::common::protocol::{FrameData, PixelFormat};

verus! {

#[verifier::external_type_specification]
#[verifier::external_body]
pub struct ExDynamicImage(image::DynamicImage);

/// An RGBA image buffer of the `image` crate (`ImageBuffer<Rgba<u8>, Vec<u8>>`).
///
/// Verus cannot declare that type, whose parameter is bound by the crate's
/// `Pixel` trait, so it is held here, out of Verus's sight.
#[verifier::external_body]
pub struct RgbaBuffer {
    buffer: RgbaImage,
}

/// The whole milliseconds in `d`, as `Duration::as_millis` gives them.
pub uninterp spec fn duration_millis(d: Duration) -> u128;

/// Calls `std::time::SystemTime::elapsed` on `UNIX_EPOCH`: the time since
/// the Unix epoch by the system clock, or `None` when the clock reads an
/// earlier time. It depends on the clock, so nothing is stated of it.
#[verifier::external_body]
fn elapsed_since_unix_epoch() -> (r: Option<Duration>) {
    std::time::UNIX_EPOCH.elapsed().ok()
}

/// Calls `Duration::as_millis`; the result is named `duration_millis`.
#[verifier::external_body]
fn as_millis(d: &Duration) -> (r: u128)
    ensures
        r == duration_millis(*d),
{
    d.as_millis()
}

/// The timestamp for a time `elapsed` since the Unix epoch: its whole
/// milliseconds, cut to 64 bits. A clock before the epoch gives none.
pub fn timestamp_from_elapsed(elapsed: Option<Duration>) -> (r: Option<u64>)
    ensures
        match elapsed {
            Some(d) => r == Some(duration_millis(d) as u64),
            None => r is None,
        },
{
    match elapsed {
        Some(d) => {
            let millis: u128 = as_millis(&d);
            Some(millis as u64)
        },
        None => None,
    }
}

/// The current time in milliseconds since the Unix epoch, or `None` when the
/// system clock reads a time before the epoch.
///
/// The time comes from the system clock, so no value is promised; what holds
/// of every reading is that a timestamp is the whole milliseconds, cut to 64
/// bits, of the time elapsed since the epoch.
pub fn current_timestamp() -> (r: Option<u64>)
    ensures
        r matches Some(t) ==> exists|elapsed: Duration| t == #[trigger] duration_millis(elapsed) as u64,
{
    let elapsed = elapsed_since_unix_epoch();
    let r = timestamp_from_elapsed(elapsed);
    proof {
        if let Some(d) = elapsed {
            assert(r == Some(duration_millis(d) as u64));
        }
    }
    r
}

/// Names the RGBA image of `width` x `height` pixels over the bytes `data`
/// that `ImageBuffer::from_raw` builds, wrapped as `DynamicImage::ImageRgba8`.
pub uninterp spec fn rgba8_image(width: u32, height: u32, data: Seq<u8>) -> DynamicImage;

/// Names the RGBA copy of `img` that `DynamicImage::to_rgba8` returns.
pub uninterp spec fn rgba8_copy(img: DynamicImage) -> RgbaBuffer;

/// Names what `ImageBuffer::width` returns.
pub uninterp spec fn image_width(img: RgbaBuffer) -> u32;

/// Names what `ImageBuffer::height` returns.
pub uninterp spec fn image_height(img: RgbaBuffer) -> u32;

/// Names the bytes that `ImageBuffer::into_raw` returns.
pub uninterp spec fn image_raw(img: RgbaBuffer) -> Seq<u8>;

/// Whether `width` x `height` RGBA pixels fit in `len` bytes.
pub open spec fn rgba_fits(width: u32, height: u32, len: int) -> bool {
    4 * width * height <= len
}

/// Calls `ImageBuffer::<Rgba<u8>, Vec<u8>>::from_raw` and wraps the buffer
/// as `DynamicImage::ImageRgba8`. As its source shows, it gives an image
/// exactly when `4 * width * height` bytes fit in `data`.
#[verifier::external_body]
fn rgba8_image_from_raw(width: u32, height: u32, data: Vec<u8>) -> (r: Option<DynamicImage>)
    ensures
        r is Some <==> rgba_fits(width, height, data@.len() as int),
        r matches Some(img) ==> img == rgba8_image(width, height, data@),
{
    match ImageBuffer::<Rgba<u8>, Vec<u8>>::from_raw(width, height, data) {
        Some(buffer) => Some(DynamicImage::ImageRgba8(buffer)),
        None => None,
    }
}

/// Calls `DynamicImage::to_rgba8`. As its source shows, the copy is a new
/// buffer of exactly four bytes per pixel, and the copy of an RGBA image
/// keeps its size and the first `4 * width * height` of its bytes.
#[verifier::external_body]
fn to_rgba8(img: &DynamicImage) -> (r: RgbaBuffer)
    ensures
        r == rgba8_copy(*img),
        image_raw(r).len() == 4 * image_width(r) * image_height(r),
        forall|w: u32, h: u32, d: Seq<u8>|
            #![trigger rgba8_image(w, h, d)]
            *img == rgba8_image(w, h, d) && rgba_fits(w, h, d.len() as int) ==> image_width(r) == w
                && image_height(r) == h && image_raw(r) == d.take(4 * w * h),
{
    RgbaBuffer { buffer: img.to_rgba8() }
}

/// Calls `ImageBuffer::width`.
#[verifier::external_body]
fn width_of(img: &RgbaBuffer) -> (r: u32)
    ensures
        r == image_width(*img),
{
    img.buffer.width()
}

/// Calls `ImageBuffer::height`.
#[verifier::external_body]
fn height_of(img: &RgbaBuffer) -> (r: u32)
    ensures
        r == image_height(*img),
{
    img.buffer.height()
}

/// Calls `ImageBuffer::into_raw`.
#[verifier::external_body]
fn into_raw(img: RgbaBuffer) -> (r: Vec<u8>)
    ensures
        r@ == image_raw(img),
{
    img.buffer.into_raw()
}

/// The name under which a pixel format is shown in messages.
pub open spec fn pixel_format_name(format: PixelFormat) -> Seq<char> {
    match format {
        PixelFormat::RGB => "RGB"@,
        PixelFormat::RGBA => "RGBA"@,
        PixelFormat::BGR => "BGR"@,
        PixelFormat::BGRA => "BGRA"@,
    }
}

fn format_name(format: PixelFormat) -> (r: &'static str)
    ensures
        r@ == pixel_format_name(format),
{
    match format {
        PixelFormat::RGB => "RGB",
        PixelFormat::RGBA => "RGBA",
        PixelFormat::BGR => "BGR",
        PixelFormat::BGRA => "BGRA",
    }
}

/// The image that `bytes_to_image` makes of a frame of `width` x `height`
/// pixels in `format` over `data`, if any: only RGBA frames with four bytes
/// for every pixel make one.
pub open spec fn frame_image(width: u32, height: u32, data: Seq<u8>, format: PixelFormat) -> Option<
    DynamicImage,
> {
    if format == PixelFormat::RGBA && rgba_fits(width, height, data.len() as int) {
        Some(rgba8_image(width, height, data))
    } else {
        None
    }
}

/// Makes an image of an RGBA frame.
///
/// Fails with `Unknown` when the frame is in another format, or when its
/// data holds fewer than four bytes per pixel.
pub fn bytes_to_image(frame: &FrameData) -> (r: Result<DynamicImage, CleverestError>)
    ensures
        match frame_image(frame.width, frame.height, frame.data@, frame.format) {
            Some(img) => r == Ok::<DynamicImage, CleverestError>(img),
            None => r is Err,
        },
        frame.format == PixelFormat::RGBA && rgba_fits(frame.width, frame.height, frame.data@.len() as int)
            ==> r == Ok::<DynamicImage, CleverestError>(rgba8_image(frame.width, frame.height, frame.data@)),
        frame.format == PixelFormat::RGBA && !rgba_fits(frame.width, frame.height, frame.data@.len() as int)
            ==> (r matches Err(CleverestError::Unknown(m)) && m@ == "Failed to create image from raw data"@),
        frame.format != PixelFormat::RGBA ==> (r matches Err(CleverestError::Unknown(m)) && m@
            == "Unsupported pixel format: "@ + pixel_format_name(frame.format)),
{
    match frame.format {
        PixelFormat::RGBA => {
            let data = frame.data.clone();
            assert(data@ =~= frame.data@);
            match rgba8_image_from_raw(frame.width, frame.height, data) {
                Some(img) => Ok(img),
                None => Err(CleverestError::Unknown(String::from_str("Failed to create image from raw data"))),
            }
        },
        _ => {
            let mut message = String::from_str("Unsupported pixel format: ");
            message.append(format_name(frame.format));
            Err(CleverestError::Unknown(message))
        },
    }
}

/// The RGBA bytes of an image with its width, height and format.
///
/// The bytes are those of the image's RGBA copy, four per pixel, so the
/// frame made of the parts turns back, through `bytes_to_image`, into the
/// RGBA image over those parts: the copy that `DynamicImage::to_rgba8` gave,
/// as `DynamicImage::ImageRgba8`. For an image that `bytes_to_image` made of
/// an RGBA frame this gives the frame back: its width, height and the bytes
/// of its pixels.
pub fn image_to_bytes(img: &DynamicImage) -> (r: Result<(Vec<u8>, u32, u32, PixelFormat), CleverestError>)
    ensures
        r matches Ok((data, width, height, format)) && data@ == image_raw(rgba8_copy(*img))
            && width == image_width(rgba8_copy(*img)) && height == image_height(rgba8_copy(*img))
            && format == PixelFormat::RGBA,
        r matches Ok((data, width, height, format)) && data@.len() == 4 * width * height
            && frame_image(width, height, data@, format) == Some(rgba8_image(width, height, data@)),
        forall|w: u32, h: u32, d: Seq<u8>|
            #![trigger rgba8_image(w, h, d)]
            *img == rgba8_image(w, h, d) && rgba_fits(w, h, d.len() as int) ==> (r matches Ok((data, width, height, format))
                && data@ == d.take(4 * w * h) && width == w && height == h && format == PixelFormat::RGBA),
{
    let rgba = to_rgba8(img);
    let width: u32 = width_of(&rgba);
    let height: u32 = height_of(&rgba);
    let format = PixelFormat::RGBA;
    let raw_data = into_raw(rgba);
    Ok((raw_data, width, height, format))
}

} // verus!
