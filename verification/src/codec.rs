//! The image codec: container encoding, bitmap decoding and alpha blending.
//!
//! These are the only places where pixel data leaves verified code. What the
//! codec computes is not stated here; each result carries a name, and the
//! contracts of the library say exactly which named result they return.

use crate::error::FbInkError;
use crate::pixels::{ImageView, PixelImage, PixelLayout, Pixels};
use vstd::prelude::*;

verus! {

/// The container formats that a snapshot can be encoded to.
#[derive(Debug, Clone, Copy, PartialEq, Eq, Structural)]
pub enum ImageFormat {
    /// Lossless; holds every layout.
    Png,
    /// Uncompressed; holds the 8-bit layouts.
    Bmp,
}

/// The codec's own image type, carried between its functions unread.
#[verifier::external_type_specification]
#[verifier::external_body]
pub struct ExDynamicImage(image::DynamicImage);

/// The file that the codec writes for an image in a container format, or
/// `None` where it refuses the combination.
pub uninterp spec fn encoded_image(image: ImageView, format: ImageFormat) -> Option<Seq<u8>>;

/// Width, height and 8-bit RGB samples of the bitmap file that `bytes` hold,
/// or `None` where the codec cannot decode them.
pub uninterp spec fn decoded_bitmap(bytes: Seq<u8>) -> Option<(u32, u32, Seq<u8>)>;

/// The pixels that one of the codec's images holds.
pub uninterp spec fn image_content(image: image::DynamicImage) -> ImageView;

/// `bottom` after `top` has been blended onto it with their top left corners
/// aligned.
pub uninterp spec fn overlaid_image(bottom: ImageView, top: ImageView) -> ImageView;

/// `image::write_buffer_with_format` into a buffer in memory: the file for the
/// image that `bytes` hold, or the codec's error. The encoders stop the
/// program on a buffer whose length differs from what the dimensions ask for,
/// and multiply dimensions in 32 bits; the precondition keeps clear of both.
#[verifier::external_body]
fn write_buffer(
    bytes: &[u8],
    width: u32,
    height: u32,
    layout: PixelLayout,
    format: ImageFormat,
) -> (r: Result<Vec<u8>, image::error::ImageError>)
    requires
        bytes@.len() == width * height * layout.spec_bytes_per_pixel(),
        width <= u16::MAX,
        height <= u16::MAX,
    ensures
        match r {
            Ok(file) => encoded_image(
                ImageView::of_bytes(bytes@, width as nat, height as nat, layout),
                format,
            ) == Some(file@),
            Err(_) => encoded_image(
                ImageView::of_bytes(bytes@, width as nat, height as nat, layout),
                format,
            ) is None,
        },
{
    let color = match layout {
        PixelLayout::Luma8 => image::ColorType::L8,
        PixelLayout::Luma16 => image::ColorType::L16,
        PixelLayout::Rgb8 => image::ColorType::Rgb8,
        PixelLayout::Rgba8 => image::ColorType::Rgba8,
    };
    let container = match format {
        ImageFormat::Png => image::ImageFormat::Png,
        ImageFormat::Bmp => image::ImageFormat::Bmp,
    };
    let mut file = std::io::Cursor::new(Vec::new());
    image::write_buffer_with_format(&mut file, bytes, width, height, color, container)?;
    Ok(file.into_inner())
}

/// `image::load_from_memory_with_format` for the bitmap container, followed by
/// `DynamicImage::into_rgb8`: the decoded picture as 8-bit RGB, or the codec's
/// error. The decoder fills a buffer of exactly the size that the dimensions
/// ask for, and the conversion makes one of that size: there are three
/// samples for each pixel.
#[verifier::external_body]
fn read_bitmap(bytes: &[u8]) -> (r: Result<(u32, u32, Vec<u8>), image::error::ImageError>)
    ensures
        match r {
            Ok(parts) => decoded_bitmap(bytes@) == Some((parts.0, parts.1, parts.2@)),
            Err(_) => decoded_bitmap(bytes@) is None,
        },
        r matches Ok(parts) ==> parts.2@.len() == parts.0 * parts.1 * 3,
{
    let rgb = image::load_from_memory_with_format(bytes, image::ImageFormat::Bmp)?.into_rgb8();
    Ok((rgb.width(), rgb.height(), rgb.into_raw()))
}

/// `ImageBuffer::from_raw` under the matching constructor of `DynamicImage`:
/// the codec's image with the pixels of `img`.
#[verifier::external_body]
fn to_dynamic(img: &PixelImage) -> (d: image::DynamicImage)
    requires
        img.wf(),
    ensures
        image_content(d) == img@,
{
    let (w, h) = (img.width, img.height);
    match &img.pixels {
        Pixels::Luma8(v) => image::GrayImage::from_raw(w, h, v.clone()).unwrap().into(),
        Pixels::Luma16(v) => image::DynamicImage::ImageLuma16(
            image::ImageBuffer::from_raw(w, h, v.clone()).unwrap(),
        ),
        Pixels::Rgb8(v) => image::RgbImage::from_raw(w, h, v.clone()).unwrap().into(),
        Pixels::Rgba8(v) => image::RgbaImage::from_raw(w, h, v.clone()).unwrap().into(),
    }
}

/// `ImageBuffer::into_raw` on each variant of `DynamicImage` that the library
/// has a layout for, `DynamicImage::into_rgba8` before it on the others:
/// dimensions and samples of the codec's image.
#[verifier::external_body]
fn image_parts(d: image::DynamicImage) -> (r: (u32, u32, Pixels))
    ensures
        image_content(d) == (ImageView {
            width: r.0 as nat,
            height: r.1 as nat,
            pixels: r.2@,
        }),
{
    let (width, height) = (d.width(), d.height());
    let pixels = match d {
        image::DynamicImage::ImageLuma8(b) => Pixels::Luma8(b.into_raw()),
        image::DynamicImage::ImageLuma16(b) => Pixels::Luma16(b.into_raw()),
        image::DynamicImage::ImageRgb8(b) => Pixels::Rgb8(b.into_raw()),
        image::DynamicImage::ImageRgba8(b) => Pixels::Rgba8(b.into_raw()),
        other => Pixels::Rgba8(other.into_rgba8().into_raw()),
    };
    (width, height, pixels)
}

/// `image::imageops::overlay` at offset `(0, 0)`: blends `top` onto `bottom`
/// in place. It only puts pixels into `bottom`, so `bottom` keeps its
/// dimensions, its layout and the size of its buffer.
#[verifier::external_body]
fn overlay_at_origin(bottom: &mut image::DynamicImage, top: &image::DynamicImage)
    ensures
        image_content(*final(bottom)) == overlaid_image(
            image_content(*old(bottom)),
            image_content(*top),
        ),
        image_content(*final(bottom)).width == image_content(*old(bottom)).width,
        image_content(*final(bottom)).height == image_content(*old(bottom)).height,
        image_content(*final(bottom)).layout() == image_content(*old(bottom)).layout(),
        image_content(*final(bottom)).pixels.len() == image_content(*old(bottom)).pixels.len(),
{
    image::imageops::overlay(bottom, top, 0, 0);
}

/// What an encoding attempt hands back: the file, or the codec's error under
/// the library's error type.
pub fn encode_outcome(written: Result<Vec<u8>, image::error::ImageError>) -> (r: Result<
    Vec<u8>,
    FbInkError,
>)
    ensures
        match written {
            Ok(file) => r == Ok::<Vec<u8>, FbInkError>(file),
            Err(e) => r == Err::<Vec<u8>, FbInkError>(FbInkError::ImageError(e)),
        },
{
    match written {
        Ok(file) => Ok(file),
        Err(e) => Err(FbInkError::ImageError(e)),
    }
}

/// The detail of the error for a buffer that does not cover its image.
pub open spec fn short_buffer() -> Seq<char> {
    "buffer is shorter than the image"@
}

/// Encodes the image that the leading bytes of a raw buffer hold.
///
/// Fails with `InvalidArgument` where the buffer does not cover the image.
/// Otherwise the result is the codec's file for that image, or its error
/// where it refuses the layout for the container.
pub fn encode_bytes(
    bytes: &[u8],
    width: u16,
    height: u16,
    layout: PixelLayout,
    format: ImageFormat,
) -> (r: Result<Vec<u8>, FbInkError>)
    ensures
        if bytes@.len() < width * height * layout.spec_bytes_per_pixel() {
            r matches Err(FbInkError::InvalidArgument(msg)) && msg@ == short_buffer()
        } else {
            match encoded_image(
                ImageView::of_bytes(bytes@, width as nat, height as nat, layout),
                format,
            ) {
                Some(file) => r matches Ok(out) && out@ == file,
                None => r matches Err(FbInkError::ImageError(_)),
            }
        },
{
    let bpp = layout.bytes_per_pixel();
    let w: usize = width as usize;
    let h: usize = height as usize;
    assert(w * h <= 0xffff * 0xffff) by (nonlinear_arith)
        requires
            w <= 0xffff,
            h <= 0xffff,
    ;
    let area: u64 = w as u64 * h as u64;
    assert(area * bpp <= 0xffff * 0xffff * 4) by (nonlinear_arith)
        requires
            area <= 0xffff * 0xffff,
            bpp <= 4,
    ;
    let needed: u64 = area * bpp as u64;
    if (bytes.len() as u64) < needed {
        return Err(FbInkError::InvalidArgument("buffer is shorter than the image".to_owned()));
    }
    let used: usize = needed as usize;
    let image_bytes = vstd::slice::slice_subrange(bytes, 0, used);
    proof {
        lemma_of_bytes_prefix(bytes@, used as int, width as nat, height as nat, layout);
    }
    encode_outcome(write_buffer(image_bytes, width as u32, height as u32, layout, format))
}

/// Reading an image from a buffer looks only at the bytes that the image
/// covers.
pub proof fn lemma_of_bytes_prefix(
    bytes: Seq<u8>,
    used: int,
    width: nat,
    height: nat,
    layout: PixelLayout,
)
    requires
        used == width * height * layout.spec_bytes_per_pixel(),
        used <= bytes.len(),
    ensures
        ImageView::of_bytes(bytes.subrange(0, used), width, height, layout) == ImageView::of_bytes(
            bytes,
            width,
            height,
            layout,
        ),
{
    let count = width * height * layout.spec_channels();
    let head = bytes.subrange(0, used);
    match layout {
        PixelLayout::Luma16 => {
            assert(used == 2 * count) by (nonlinear_arith)
                requires
                    used == width * height * 2,
                    count == width * height * 1,
            ;
            assert(crate::pixels::samples_of_bytes(head, count)
                =~= crate::pixels::samples_of_bytes(bytes, count));
        },
        _ => {
            assert(head.subrange(0, count as int) =~= bytes.subrange(0, count as int));
        },
    }
}

/// Decodes a bitmap file to an 8-bit RGB image.
///
/// Fails with the codec's error where the file cannot be decoded.
pub fn decode_bitmap(bytes: &[u8]) -> (r: Result<PixelImage, FbInkError>)
    ensures
        match decoded_bitmap(bytes@) {
            None => r matches Err(FbInkError::ImageError(_)),
            Some(parts) => r matches Ok(img) && img.wf() && img@ == (ImageView {
                width: parts.0 as nat,
                height: parts.1 as nat,
                pixels: crate::pixels::PixelsView::Rgb8(parts.2),
            }),
        },
{
    match read_bitmap(bytes) {
        Err(e) => Err(FbInkError::ImageError(e)),
        Ok(parts) => bitmap_outcome(parts.0, parts.1, parts.2),
    }
}

/// The image that width, height and 8-bit RGB samples make up, if they fit
/// together: `SunxiDumpError` where there are not three samples for each
/// pixel.
pub fn bitmap_outcome(width: u32, height: u32, samples: Vec<u8>) -> (r: Result<
    PixelImage,
    FbInkError,
>)
    ensures
        if samples@.len() == width * height * 3 {
            r matches Ok(img) && img.wf() && img@ == (ImageView {
                width: width as nat,
                height: height as nat,
                pixels: crate::pixels::PixelsView::Rgb8(samples@),
            })
        } else {
            r matches Err(FbInkError::SunxiDumpError)
        },
{
    match PixelImage::new(width, height, Pixels::Rgb8(samples)) {
        Some(img) => Ok(img),
        None => Err(FbInkError::SunxiDumpError),
    }
}

/// Blends `top` onto `bottom` with their top left corners aligned. The
/// result has the dimensions and the layout of `bottom`.
pub fn blend(bottom: &PixelImage, top: &PixelImage) -> (r: PixelImage)
    requires
        bottom.wf(),
        top.wf(),
    ensures
        r.wf(),
        r@ == overlaid_image(bottom@, top@),
        r@.width == bottom@.width,
        r@.height == bottom@.height,
        r@.layout() == bottom@.layout(),
{
    let mut canvas = to_dynamic(bottom);
    let layer = to_dynamic(top);
    overlay_at_origin(&mut canvas, &layer);
    let parts = image_parts(canvas);
    match PixelImage::new(parts.0, parts.1, parts.2) {
        Some(blended) => blended,
        None => vstd::pervasive::unreached(),
    }
}

} // verus!
