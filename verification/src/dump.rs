//! Snapshots of the display: what was captured, what a crop narrows, and what
//! a restore hands back to the driver.
//!
//! A snapshot owns its bytes. Cropping changes only the clip; the bytes stay
//! as they were captured. Two backends hold a snapshot: [`FbInkDump`], filled
//! from a buffer that the driver returned, and [`SunxiDump`], decoded from the
//! bitmap that the kernel writes on the one SoC family without such a buffer.

use crate::codec::{
    blend, decode_bitmap, decoded_bitmap, encode_bytes, encoded_image, overlaid_image, ImageFormat,
};
use crate::error::FbInkError;
use crate::pixels::{
    lemma_bytes_round_trip, lemma_crop_whole, lemma_of_bytes_wf, lemma_remapped_sample, ImageView,
    PixelImage, PixelLayout, Pixels, PixelsView, Remap,
};
use crate::rect::FbInkRect;
use crate::text::{decimal, decimal_text};
use vstd::arithmetic::div_mod::lemma_fundamental_div_mod_converse;
use vstd::prelude::*;
use vstd::string::StringExecFns;

verus! {

/// The mathematical content of a snapshot.
pub struct DumpView {
    /// The captured bytes, scanline after scanline.
    pub data: Seq<u8>,
    /// Bytes per scanline, padding included.
    pub stride: nat,
    /// The region that was captured.
    pub area: FbInkRect,
    /// The part of `area` that a restore writes back.
    pub clip: FbInkRect,
    /// The native rotation code at capture time.
    pub rota: u8,
    /// Bits per pixel.
    pub bpp: u8,
    /// True when the clip is the whole area.
    pub is_full: bool,
}

impl DumpView {
    /// Whole bytes per pixel.
    pub open spec fn bytes_per_pixel(self) -> int {
        self.bpp as int / 8
    }

    /// Bytes that the pixels of one scanline take, without padding.
    pub open spec fn row_bytes(self) -> int {
        (self.area.width * self.bpp + 7) / 8
    }

    /// The invariant of every snapshot: the clip is the area or a nonempty
    /// part of it, `is_full` says which, and the bytes are `area.height`
    /// scanlines of `stride` bytes, each long enough for its pixels.
    pub open spec fn wf(self) -> bool {
        &&& self.clip == self.area || self.area.admits(self.clip)
        &&& self.is_full <==> self.clip == self.area
        &&& self.data.len() == self.stride * self.area.height
        &&& self.stride >= self.row_bytes()
    }

    /// The snapshot with its clip replaced.
    pub open spec fn cropped(self, rect: FbInkRect) -> DumpView {
        DumpView { clip: rect, is_full: rect == self.area, ..self }
    }

    /// The pixel layout that the depth stands for, unless the bytes cannot be
    /// read in it: only 8, 16, 24 and 32 bits have a layout, and 16-bit
    /// samples need an even number of bytes.
    pub open spec fn layout(self) -> Option<PixelLayout> {
        match PixelLayout::spec_from_bpp(self.bpp) {
            Some(PixelLayout::Luma16) => if self.data.len() % 2 == 0 {
                Some(PixelLayout::Luma16)
            } else {
                None
            },
            other => other,
        }
    }

    /// The captured bytes read as a typed pixel array of the area's
    /// dimensions, where the depth has a layout.
    pub open spec fn image(self) -> Option<ImageView> {
        match self.layout() {
            Some(layout) => Some(
                ImageView::of_bytes(
                    self.data,
                    self.area.width as nat,
                    self.area.height as nat,
                    layout,
                ),
            ),
            None => None,
        }
    }

    /// The window of the decoded image that the clip covers. The decoded
    /// image has its origin at the area's top left corner.
    pub open spec fn clip_window(self) -> Remap {
        Remap::Crop {
            left: (self.clip.left - self.area.left) as u32,
            top: (self.clip.top - self.area.top) as u32,
            width: self.clip.width as u32,
            height: self.clip.height as u32,
        }
    }

    /// The packed bytes of the pixels that the clip covers, row by row.
    pub open spec fn clip_pixels(self) -> Seq<u8> {
        match self.image() {
            Some(image) => image.remapped(self.clip_window()).bytes(),
            None => Seq::empty(),
        }
    }

    /// Index in `data` of byte `k` of the pixel at display position `(x, y)`.
    pub open spec fn byte_index(self, x: int, y: int, k: int) -> int {
        (y - self.area.top) * self.stride + (x - self.area.left) * self.bytes_per_pixel() + k
    }

    /// Index in `data` of the first byte of the clip.
    pub open spec fn clip_offset(self) -> int {
        self.byte_index(self.clip.left as int, self.clip.top as int, 0)
    }

    /// Index in `data` of the first byte of scanline `row` of the clip.
    pub open spec fn clip_row_start(self, row: int) -> int {
        self.clip_offset() + row * self.stride
    }

    /// True when a restore writes the byte at index `i` of `data` to the
    /// display: it lies in one of the clip's scanlines, between the clip's
    /// left and right edge.
    pub open spec fn restores_byte(self, i: int) -> bool {
        exists|row: int|
            0 <= row < self.clip.height && #[trigger] self.clip_row_start(row) <= i
                < self.clip_row_start(row) + self.clip.width * self.bytes_per_pixel()
    }
}

/// Packed pixels for the driver's raw print call, with the position to print
/// them at.
#[derive(Debug)]
pub struct RawPrint {
    pub data: Vec<u8>,
    pub w: i32,
    pub h: i32,
    pub x_off: i16,
    pub y_off: i16,
}

/// What restoring a snapshot asks of the driver.
#[derive(Debug)]
pub enum RestorePlan {
    /// Hand the captured buffer back as it is, clipped to `region`, whose
    /// first byte lies at `offset` in the buffer.
    Buffer { region: FbInkRect, offset: usize },
    /// Print these packed pixels.
    Print(RawPrint),
}

impl RestorePlan {
    /// The region of the display that the plan writes.
    pub open spec fn region(self) -> FbInkRect {
        match self {
            RestorePlan::Buffer { region, offset } => region,
            RestorePlan::Print(p) => FbInkRect {
                left: p.x_off as u16,
                top: p.y_off as u16,
                width: p.w as u16,
                height: p.h as u16,
            },
        }
    }
}

/// What `crop` owes: a nonempty rectangle inside the area becomes the clip,
/// anything else is refused and changes nothing.
pub open spec fn crop_outcome(
    before: DumpView,
    rect: FbInkRect,
    after: DumpView,
    r: Result<(), FbInkError>,
) -> bool {
    if before.area.admits(rect) {
        r is Ok && after == before.cropped(rect)
    } else if rect.spec_is_empty() {
        after == before && (r matches Err(FbInkError::InvalidArgument(msg)) && msg@
            == "empty region"@)
    } else {
        after == before && (r matches Err(FbInkError::InvalidArgument(msg)) && msg@
            == "region out of bounds"@)
    }
}

/// What decoding owes: the image of the snapshot, or `NotSupported` where the
/// depth has no layout.
pub open spec fn image_outcome(dump: DumpView, r: Result<PixelImage, FbInkError>) -> bool {
    match dump.image() {
        Some(image) => r matches Ok(img) && img.wf() && img@ == image,
        None => r matches Err(FbInkError::NotSupported(msg)) && msg@ == cannot_decode(),
    }
}

/// The detail of the error for a depth that cannot be encoded.
pub open spec fn cannot_encode(bpp: u8) -> Seq<char> {
    "Can't encode a dump with "@ + decimal(bpp as nat) + " bpp"@
}

/// The detail of the error for a snapshot that cannot be decoded.
pub open spec fn cannot_decode() -> Seq<char> {
    "Unable to convert dump to DynamicImage"@
}

/// The detail of the error for an overlay that reaches outside the snapshot.
pub open spec fn overlay_misfit() -> Seq<char> {
    "overlay does not fit inside the dump"@
}

/// What encoding owes: the codec's file for the decoded image, its error
/// where it refuses the image, or `NotSupported` where the depth has no
/// layout.
pub open spec fn encode_result(
    dump: DumpView,
    format: ImageFormat,
    r: Result<Vec<u8>, FbInkError>,
) -> bool {
    match dump.image() {
        None => r matches Err(FbInkError::NotSupported(msg)) && msg@ == cannot_encode(dump.bpp),
        Some(image) => match encoded_image(image, format) {
            Some(file) => r matches Ok(out) && out@ == file,
            None => r matches Err(FbInkError::ImageError(_)),
        },
    }
}

/// What composing an overlay owes. The overlay must fit inside the decoded
/// image at the offset, and the offset must fit the signed 16-bit range of
/// the print call; then the job holds the window under the overlay with the
/// overlay blended onto it, to be printed at the offset.
pub open spec fn overlay_outcome(
    dump: DumpView,
    top: ImageView,
    x_offset: u32,
    y_offset: u32,
    r: Result<RawPrint, FbInkError>,
) -> bool {
    let window = Remap::Crop {
        left: x_offset,
        top: y_offset,
        width: top.width as u32,
        height: top.height as u32,
    };
    match dump.image() {
        None => r matches Err(FbInkError::NotSupported(msg)) && msg@ == cannot_decode(),
        Some(image) => if !window.fits(image.width as int, image.height as int) {
            r matches Err(FbInkError::InvalidArgument(msg)) && msg@ == overlay_misfit()
        } else if x_offset > i16::MAX || y_offset > i16::MAX {
            r matches Err(FbInkError::SunxiDumpError)
        } else {
            r matches Ok(job) && job.data@ == overlaid_image(image.remapped(window), top).bytes()
                && job.w == top.width && job.h == top.height && job.x_off == x_offset && job.y_off
                == y_offset
        },
    }
}

/// A captured region of the display.
pub trait Dump: Sized {
    /// The mathematical content of the snapshot.
    spec fn view(&self) -> DumpView;

    /// The invariant of the snapshot.
    spec fn wf(&self) -> bool;

    /// A well-formed snapshot has well-formed content.
    proof fn lemma_wf(&self)
        requires
            self.wf(),
        ensures
            self.view().wf(),
    ;

    /// The captured bytes: all of them, whatever the clip.
    fn data(&self) -> (r: &[u8])
        requires
            self.wf(),
        ensures
            r@ == self.view().data,
    ;

    fn size(&self) -> (r: usize)
        requires
            self.wf(),
        ensures
            r == self.view().data.len(),
    ;

    fn stride(&self) -> (r: usize)
        requires
            self.wf(),
        ensures
            r == self.view().stride,
    ;

    fn area(&self) -> (r: FbInkRect)
        requires
            self.wf(),
        ensures
            r == self.view().area,
    ;

    fn clip(&self) -> (r: FbInkRect)
        requires
            self.wf(),
        ensures
            r == self.view().clip,
    ;

    fn rota(&self) -> (r: u8)
        requires
            self.wf(),
        ensures
            r == self.view().rota,
    ;

    fn bpp(&self) -> (r: u8)
        requires
            self.wf(),
        ensures
            r == self.view().bpp,
    ;

    fn is_full(&self) -> (r: bool)
        requires
            self.wf(),
        ensures
            r == self.view().is_full,
    ;

    /// Narrows what a later restore writes back. The bytes are not touched.
    fn crop(&mut self, left: u16, top: u16, width: u16, height: u16) -> (r: Result<
        (),
        FbInkError,
    >)
        requires
            old(self).wf(),
        ensures
            final(self).wf(),
            crop_outcome(
                old(self).view(),
                FbInkRect { left, top, width, height },
                final(self).view(),
                r,
            ),
    ;

    /// [`Dump::crop`] with the rectangle in one value.
    fn crop_rect(&mut self, rect: FbInkRect) -> (r: Result<(), FbInkError>)
        requires
            old(self).wf(),
        ensures
            final(self).wf(),
            crop_outcome(old(self).view(), rect, final(self).view(), r),
    ;

    /// What restoring the snapshot asks of the driver. It always writes the
    /// clip and nothing else. A snapshot without bytes cannot be restored;
    /// one with bytes can, wherever its clip starts within the signed 16-bit
    /// offsets that every way of writing to the display takes.
    fn restore(&self) -> (r: Result<RestorePlan, FbInkError>)
        requires
            self.wf(),
        ensures
            self.view().data.len() == 0 ==> (r matches Err(FbInkError::InvalidArgument(msg))
                && msg@ == "no data"@),
            self.view().data.len() > 0 && self.view().clip.left <= i16::MAX
                && self.view().clip.top <= i16::MAX ==> r is Ok,
            r matches Ok(plan) ==> plan.region() == self.view().clip,
    ;

    /// A copy of the captured bytes, decoded to an image.
    fn dynamic_image(&self) -> (r: Result<PixelImage, FbInkError>)
        requires
            self.wf(),
        ensures
            image_outcome(self.view(), r),
    ;

    /// The decoded image, kept by the snapshot after the first call.
    fn dynamic_image_ref(&mut self) -> (r: Result<&PixelImage, FbInkError>)
        requires
            old(self).wf(),
        ensures
            final(self).wf(),
            final(self).view() == old(self).view(),
            match old(self).view().image() {
                Some(image) => r matches Ok(img) && img.wf() && img@ == image,
                None => r matches Err(FbInkError::NotSupported(msg)) && msg@ == cannot_decode(),
            },
    ;

    /// The snapshot as a file of the given container format.
    fn encode(&self, encoding: ImageFormat) -> (r: Result<Vec<u8>, FbInkError>)
        requires
            self.wf(),
        ensures
            encode_result(self.view(), encoding, r),
    {
        proof {
            self.lemma_wf();
        }
        let area = self.area();
        let data = self.data();
        let depth = self.bpp();
        let layout = match PixelLayout::from_bpp(depth) {
            Some(PixelLayout::Luma16) => {
                if data.len() % 2 != 0 {
                    return Err(FbInkError::NotSupported(unsupported_depth(depth)));
                }
                PixelLayout::Luma16
            },
            Some(layout) => layout,
            None => {
                return Err(FbInkError::NotSupported(unsupported_depth(depth)));
            },
        };
        proof {
            lemma_data_covers_image(self.view(), layout);
        }
        encode_bytes(data, area.width, area.height, layout, encoding)
    }

    /// The print job that puts `overlay` on the display at the given offset,
    /// blended onto what the snapshot holds there.
    fn print_overlay(&mut self, overlay: &PixelImage, x_offset: u32, y_offset: u32) -> (r: Result<
        RawPrint,
        FbInkError,
    >)
        requires
            old(self).wf(),
            overlay.wf(),
        ensures
            final(self).wf(),
            final(self).view() == old(self).view(),
            overlay_outcome(old(self).view(), overlay@, x_offset, y_offset, r),
    {
        let base = match self.dynamic_image_ref() {
            Ok(img) => img,
            Err(_) => {
                return Err(FbInkError::NotSupported(undecodable()));
            },
        };
        let window = match base.crop(x_offset, y_offset, overlay.width(), overlay.height()) {
            Some(window) => window,
            None => {
                return Err(
                    FbInkError::InvalidArgument("overlay does not fit inside the dump".to_owned()),
                );
            },
        };
        if x_offset > 0x7fff || y_offset > 0x7fff {
            return Err(FbInkError::SunxiDumpError);
        }
        let blended = blend(&window, overlay);
        Ok(
            RawPrint {
                data: blended.to_bytes(),
                w: overlay.width() as i32,
                h: overlay.height() as i32,
                x_off: x_offset as i16,
                y_off: y_offset as i16,
            },
        )
    }
}

fn unsupported_depth(bpp: u8) -> (r: String)
    ensures
        r@ == cannot_encode(bpp),
{
    let mut text = "Can't encode a dump with ".to_owned();
    let depth = decimal_text(bpp as u32);
    text.append(depth.as_str());
    text.append(" bpp");
    text
}

fn undecodable() -> (r: String)
    ensures
        r@ == "Unable to convert dump to DynamicImage"@,
{
    "Unable to convert dump to DynamicImage".to_owned()
}

/// The bytes of a well-formed snapshot cover the image of its area in any
/// layout of the snapshot's depth.
pub proof fn lemma_data_covers_image(dump: DumpView, layout: PixelLayout)
    requires
        dump.wf(),
        PixelLayout::spec_from_bpp(dump.bpp) == Some(layout),
    ensures
        dump.data.len() >= dump.area.width * dump.area.height * layout.spec_bytes_per_pixel(),
        dump.bytes_per_pixel() == layout.spec_bytes_per_pixel(),
        dump.row_bytes() == dump.area.width * layout.spec_bytes_per_pixel(),
{
    let w = dump.area.width as int;
    let h = dump.area.height as int;
    let b = layout.spec_bytes_per_pixel() as int;
    assert(dump.bpp == 8 * b);
    assert(w * dump.bpp == 8 * (w * b)) by (nonlinear_arith)
        requires
            dump.bpp == 8 * b,
    ;
    assert(dump.row_bytes() == w * b);
    assert(dump.stride * h >= (w * b) * h) by (nonlinear_arith)
        requires
            dump.stride >= w * b,
            h >= 0,
    ;
    assert((w * b) * h == w * h * b) by (nonlinear_arith);
}

fn no_data() -> (r: FbInkError)
    ensures
        r matches FbInkError::InvalidArgument(msg) && msg@ == "no data"@,
{
    FbInkError::InvalidArgument("no data".to_owned())
}

/// Checks a rectangle against the area that a clip must stay in.
fn check_clip(area: FbInkRect, rect: FbInkRect) -> (r: Result<(), FbInkError>)
    ensures
        r is Ok <==> area.admits(rect),
        !area.admits(rect) && rect.spec_is_empty() ==> (r matches Err(
            FbInkError::InvalidArgument(msg),
        ) && msg@ == "empty region"@),
        !area.admits(rect) && !rect.spec_is_empty() ==> (r matches Err(
            FbInkError::InvalidArgument(msg),
        ) && msg@ == "region out of bounds"@),
{
    if rect.is_empty() {
        Err(FbInkError::InvalidArgument("empty region".to_owned()))
    } else if !area.contains(rect) {
        Err(FbInkError::InvalidArgument("region out of bounds".to_owned()))
    } else {
        Ok(())
    }
}

/// A snapshot backed by the buffer of a direct capture.
#[derive(Debug, Clone)]
pub struct FbInkDump {
    data: Vec<u8>,
    stride: usize,
    area: FbInkRect,
    clip: FbInkRect,
    rota: u8,
    bpp: u8,
    is_full: bool,
    image: Option<PixelImage>,
}

impl FbInkDump {
    /// The content of a fresh capture: the clip is the whole area.
    pub open spec fn captured(data: Seq<u8>, stride: nat, area: FbInkRect, rota: u8, bpp: u8)
        -> DumpView {
        DumpView { data, stride, area, clip: area, rota, bpp, is_full: true }
    }

    /// Takes over the bytes of a capture of `area`.
    ///
    /// Fails with `InvalidArgument` unless the bytes are `area.height`
    /// scanlines of `stride` bytes and a scanline is long enough for
    /// `area.width` pixels of `bpp` bits.
    pub fn new(data: Vec<u8>, stride: usize, area: FbInkRect, rota: u8, bpp: u8) -> (r: Result<
        FbInkDump,
        FbInkError,
    >)
        ensures
            r is Ok <==> Self::captured(data@, stride as nat, area, rota, bpp).wf(),
            r matches Ok(dump) ==> dump.wf() && dump.view() == Self::captured(
                data@,
                stride as nat,
                area,
                rota,
                bpp,
            ),
            r matches Err(e) ==> (e matches FbInkError::InvalidArgument(msg) && msg@
                == "buffer does not match the captured area"@),
    {
        let rows: u128 = area.height as u128;
        let line: u128 = stride as u128;
        assert(line * rows <= 0xffff_ffff_ffff_ffff * 0xffff) by (nonlinear_arith)
            requires
                0 <= line <= 0xffff_ffff_ffff_ffff,
                0 <= rows <= 0xffff,
        ;
        let width: u32 = area.width as u32;
        let depth: u32 = bpp as u32;
        assert(width * depth <= 0xffff * 0xff) by (nonlinear_arith)
            requires
                0 <= width <= 0xffff,
                0 <= depth <= 0xff,
        ;
        let row_bytes: u32 = (width * depth + 7) / 8;
        if data.len() as u128 == line * rows && stride as u128 >= row_bytes as u128 {
            Ok(FbInkDump { data, stride, area, clip: area, rota, bpp, is_full: true, image: None })
        } else {
            Err(
                FbInkError::InvalidArgument("buffer does not match the captured area".to_owned()),
            )
        }
    }
}

impl Dump for FbInkDump {
    closed spec fn view(&self) -> DumpView {
        DumpView {
            data: self.data@,
            stride: self.stride as nat,
            area: self.area,
            clip: self.clip,
            rota: self.rota,
            bpp: self.bpp,
            is_full: self.is_full,
        }
    }

    closed spec fn wf(&self) -> bool {
        &&& self.view().wf()
        &&& self.image matches Some(img) ==> img.wf() && self.view().image() == Some(img@)
    }

    proof fn lemma_wf(&self) {
    }

    fn data(&self) -> (r: &[u8]) {
        self.data.as_slice()
    }

    fn size(&self) -> (r: usize) {
        self.data.len()
    }

    fn stride(&self) -> (r: usize) {
        self.stride
    }

    fn area(&self) -> (r: FbInkRect) {
        self.area
    }

    fn clip(&self) -> (r: FbInkRect) {
        self.clip
    }

    fn rota(&self) -> (r: u8) {
        self.rota
    }

    fn bpp(&self) -> (r: u8) {
        self.bpp
    }

    fn is_full(&self) -> (r: bool) {
        self.is_full
    }

    fn crop(&mut self, left: u16, top: u16, width: u16, height: u16) -> (r: Result<
        (),
        FbInkError,
    >) {
        self.crop_rect(FbInkRect { left, top, width, height })
    }

    fn crop_rect(&mut self, rect: FbInkRect) -> (r: Result<(), FbInkError>) {
        check_clip(self.area, rect)?;
        self.clip = rect;
        self.is_full = rect == self.area;
        Ok(())
    }

    /// The captured buffer goes back as it is; the plan names the clip and
    /// where its first byte lies.
    fn restore(&self) -> (r: Result<RestorePlan, FbInkError>)
        ensures
            self.view().data.len() > 0 ==> r == Ok::<RestorePlan, FbInkError>(
                RestorePlan::Buffer {
                    region: self.view().clip,
                    offset: self.view().clip_offset() as usize,
                },
            ) && 0 <= self.view().clip_offset() <= self.view().data.len(),
    {
        if self.data.len() == 0 {
            return Err(no_data());
        }
        let down: usize = (self.clip.top - self.area.top) as usize;
        let along: usize = (self.clip.left - self.area.left) as usize;
        let size: usize = (self.bpp / 8) as usize;
        proof {
            lemma_clip_offset_bounds(self.view());
        }
        let offset: usize = down * self.stride + along * size;
        Ok(RestorePlan::Buffer { region: self.clip, offset })
    }

    fn dynamic_image(&self) -> (r: Result<PixelImage, FbInkError>) {
        let layout = match PixelLayout::from_bpp(self.bpp) {
            Some(PixelLayout::Luma16) => {
                if self.data.len() % 2 != 0 {
                    return Err(FbInkError::NotSupported(undecodable()));
                }
                PixelLayout::Luma16
            },
            Some(layout) => layout,
            None => {
                return Err(FbInkError::NotSupported(undecodable()));
            },
        };
        proof {
            lemma_data_covers_image(self.view(), layout);
        }
        match PixelImage::from_bytes(
            self.data.as_slice(),
            self.area.width as u32,
            self.area.height as u32,
            layout,
        ) {
            Some(img) => Ok(img),
            None => Err(FbInkError::NotSupported(undecodable())),
        }
    }

    fn dynamic_image_ref(&mut self) -> (r: Result<&PixelImage, FbInkError>) {
        if self.image.is_none() {
            let decoded = self.dynamic_image()?;
            self.image = Some(decoded);
        }
        Ok(self.image.as_ref().unwrap())
    }
}

/// The clip of a well-formed snapshot starts inside the buffer.
pub proof fn lemma_clip_offset_bounds(dump: DumpView)
    requires
        dump.wf(),
    ensures
        0 <= (dump.clip.top - dump.area.top) * dump.stride <= dump.data.len(),
        0 <= (dump.clip.left - dump.area.left) * dump.bytes_per_pixel() <= dump.stride,
        0 <= dump.clip_offset() <= dump.data.len(),
{
    let down = dump.clip.top - dump.area.top;
    let along = dump.clip.left - dump.area.left;
    let size = dump.bytes_per_pixel();
    let stride = dump.stride as int;
    let w = dump.area.width as int;
    let h = dump.area.height as int;
    if dump.clip == dump.area {
        assert(down * stride == 0) by (nonlinear_arith)
            requires
                down == 0,
        ;
        assert(along * size == 0) by (nonlinear_arith)
            requires
                along == 0,
        ;
    } else {
        assert(0 <= down <= h - 1);
        assert(0 <= along <= w - 1);
        assert(0 <= down * stride <= (h - 1) * stride) by (nonlinear_arith)
            requires
                0 <= down <= h - 1,
                0 <= stride,
        ;
        assert((h - 1) * stride == stride * h - stride) by (nonlinear_arith);
        assert(0 <= along * size <= w * size) by (nonlinear_arith)
            requires
                0 <= along <= w,
                0 <= size,
        ;
        assert(w * (8 * size) <= w * dump.bpp) by (nonlinear_arith)
            requires
                8 * size <= dump.bpp,
                0 <= w,
        ;
        assert(w * (8 * size) == 8 * (w * size)) by (nonlinear_arith);
        assert(w * size <= dump.row_bytes());
    }
}

/// The turn that brings the kernel's bitmap, once flipped to top-down row
/// order, to what is visible on the display.
///
/// The table is as observed on the devices: code 0 needs three quarter turns,
/// code 2 one, code 3 two, and every other code none.
pub open spec fn rotation_correction(rota: u8) -> Option<Remap> {
    if rota == 0 {
        Some(Remap::Rotate270)
    } else if rota == 2 {
        Some(Remap::Rotate90)
    } else if rota == 3 {
        Some(Remap::Rotate180)
    } else {
        None
    }
}

/// The decoded bitmap as it is visible: flipped to top-down row order, then
/// turned as the rotation code asks.
pub open spec fn oriented(decoded: ImageView, rota: u8) -> ImageView {
    let flipped = decoded.remapped(Remap::FlipVertical);
    match rotation_correction(rota) {
        Some(turn) => flipped.remapped(turn),
        None => flipped,
    }
}

/// A snapshot backed by the decoded bitmap of an indirect capture.
#[derive(Debug)]
pub struct SunxiDump {
    image: PixelImage,
    clip: FbInkRect,
    area: FbInkRect,
    rota: u8,
    bpp: u8,
    is_full: bool,
}

impl SunxiDump {
    /// The content of a fresh snapshot of an image: 24 bits per pixel, the
    /// area at the origin with the image's dimensions, the clip the whole
    /// area.
    pub open spec fn holding(image: ImageView, rota: u8) -> DumpView {
        let area = FbInkRect {
            left: 0,
            top: 0,
            width: image.width as u16,
            height: image.height as u16,
        };
        DumpView {
            data: image.bytes(),
            stride: image.width * 3,
            area,
            clip: area,
            rota,
            bpp: 24,
            is_full: true,
        }
    }

    /// What building a snapshot from a decoded bitmap owes.
    pub open spec fn built(decoded: ImageView, rota: u8, r: Result<SunxiDump, FbInkError>) -> bool {
        let visible = oriented(decoded, rota);
        if decoded.layout() != PixelLayout::Rgb8 {
            r matches Err(FbInkError::NotSupported(msg)) && msg@
                == "the working buffer bitmap must be 24-bit RGB"@
        } else if visible.width > u16::MAX || visible.height > u16::MAX {
            r matches Err(FbInkError::OutOfRange(msg)) && msg@
                == "the working buffer bitmap is larger than a display"@
        } else {
            r matches Ok(dump) && dump.wf() && dump.view() == Self::holding(visible, rota)
        }
    }

    /// What building a snapshot from a bitmap file owes: the codec's error
    /// where it cannot decode the file, and otherwise what the decoded bitmap
    /// gives.
    pub open spec fn decoded(rota: u8, bitmap: Seq<u8>, r: Result<SunxiDump, FbInkError>) -> bool {
        match decoded_bitmap(bitmap) {
            None => r matches Err(FbInkError::ImageError(_)),
            Some(parts) => Self::built(
                ImageView {
                    width: parts.0 as nat,
                    height: parts.1 as nat,
                    pixels: PixelsView::Rgb8(parts.2),
                },
                rota,
                r,
            ),
        }
    }

    /// Decodes the bitmap file that the kernel wrote and makes it the backing
    /// store of a snapshot, oriented as the display shows it.
    ///
    /// `current_rota` is the native rotation code of the display. Fails with
    /// the codec's error where the file cannot be decoded.
    pub fn new(current_rota: u8, bitmap: &[u8]) -> (r: Result<SunxiDump, FbInkError>)
        ensures
            Self::decoded(current_rota, bitmap@, r),
    {
        let decoded = decode_bitmap(bitmap)?;
        Self::from_decoded(current_rota, decoded)
    }

    /// Makes a decoded bitmap, bottom row first as the kernel writes it, the
    /// backing store of a snapshot.
    pub fn from_decoded(current_rota: u8, decoded: PixelImage) -> (r: Result<SunxiDump, FbInkError>)
        requires
            decoded.wf(),
        ensures
            Self::built(decoded@, current_rota, r),
    {
        match decoded.layout() {
            PixelLayout::Rgb8 => {},
            _ => {
                return Err(
                    FbInkError::NotSupported(
                        "the working buffer bitmap must be 24-bit RGB".to_owned(),
                    ),
                );
            },
        }
        let flipped = decoded.flip_vertical();
        let visible = if current_rota == 0 {
            flipped.rotate270()
        } else if current_rota == 2 {
            flipped.rotate90()
        } else if current_rota == 3 {
            flipped.rotate180()
        } else {
            flipped
        };
        proof {
            lemma_remapped_layout(decoded@, Remap::FlipVertical);
            if rotation_correction(current_rota) is Some {
                lemma_remapped_layout(flipped@, rotation_correction(current_rota).unwrap());
            }
        }
        if visible.width() > 0xffff || visible.height() > 0xffff {
            return Err(
                FbInkError::OutOfRange(
                    "the working buffer bitmap is larger than a display".to_owned(),
                ),
            );
        }
        let area = FbInkRect {
            left: 0,
            top: 0,
            width: visible.width() as u16,
            height: visible.height() as u16,
        };
        proof {
            lemma_holding_wf(visible@, current_rota);
        }
        Ok(
            SunxiDump {
                image: visible,
                clip: area,
                area,
                rota: current_rota,
                bpp: 24,
                is_full: true,
            },
        )
    }
}

/// Rearranging keeps the layout.
pub proof fn lemma_remapped_layout(img: ImageView, kind: Remap)
    ensures
        img.remapped(kind).layout() == img.layout(),
{
}

/// A fresh snapshot of an RGB image that fits the display's coordinates is
/// well formed, and decodes to that image.
pub proof fn lemma_holding_wf(image: ImageView, rota: u8)
    requires
        image.wf(),
        image.layout() == PixelLayout::Rgb8,
        image.width <= u16::MAX,
        image.height <= u16::MAX,
    ensures
        SunxiDump::holding(image, rota).wf(),
        SunxiDump::holding(image, rota).image() == Some(image),
{
    let dump = SunxiDump::holding(image, rota);
    lemma_bytes_round_trip(image);
    assert((image.width * 3) * image.height == image.width * image.height * 3)
        by (nonlinear_arith);
    assert(dump.area.width * 24 == 8 * (image.width * 3)) by (nonlinear_arith)
        requires
            dump.area.width == image.width,
    ;
}

impl SunxiDump {
    /// What every well-formed indirect snapshot holds: 24 bits per pixel, the
    /// area at the origin, scanlines without padding, and bytes that decode
    /// to an RGB image of the area's dimensions.
    pub proof fn lemma_shape(&self)
        requires
            self.wf(),
        ensures
            self.view().wf(),
            self.view().bpp == 24,
            self.view().area.left == 0,
            self.view().area.top == 0,
            self.view().stride == 3 * self.view().area.width,
            self.view().data.len() == 3 * self.view().area.width * self.view().area.height,
            self.view().image() is Some,
            self.view().image().unwrap().wf(),
            self.view().image().unwrap().layout() == PixelLayout::Rgb8,
            self.view().image().unwrap().width == self.view().area.width,
            self.view().image().unwrap().height == self.view().area.height,
            self.view().image().unwrap().bytes() == self.view().data,
    {
        let w = self.view().area.width as int;
        let h = self.view().area.height as int;
        assert((w * 3) * h == 3 * w * h) by (nonlinear_arith);
    }
}

impl Dump for SunxiDump {
    closed spec fn view(&self) -> DumpView {
        DumpView {
            data: self.image@.bytes(),
            stride: self.image@.width * 3,
            area: self.area,
            clip: self.clip,
            rota: self.rota,
            bpp: self.bpp,
            is_full: self.is_full,
        }
    }

    closed spec fn wf(&self) -> bool {
        &&& self.image.wf()
        &&& self.image@.layout() == PixelLayout::Rgb8
        &&& self.bpp == 24
        &&& self.area == FbInkRect {
            left: 0,
            top: 0,
            width: self.image@.width as u16,
            height: self.image@.height as u16,
        }
        &&& self.image@.width <= u16::MAX
        &&& self.image@.height <= u16::MAX
        &&& self.view().wf()
        &&& self.view().image() == Some(self.image@)
    }

    proof fn lemma_wf(&self) {
    }

    fn data(&self) -> (r: &[u8]) {
        match self.image.pixels() {
            Pixels::Rgb8(samples) => samples.as_slice(),
            _ => vstd::pervasive::unreached(),
        }
    }

    fn size(&self) -> (r: usize) {
        self.data().len()
    }

    fn stride(&self) -> (r: usize) {
        let width: usize = self.image.width() as usize;
        let size: usize = self.bpp as usize / 8;
        width * size
    }

    fn area(&self) -> (r: FbInkRect) {
        self.area
    }

    fn clip(&self) -> (r: FbInkRect) {
        self.clip
    }

    fn rota(&self) -> (r: u8) {
        self.rota
    }

    fn bpp(&self) -> (r: u8) {
        self.bpp
    }

    fn is_full(&self) -> (r: bool) {
        self.is_full
    }

    fn crop(&mut self, left: u16, top: u16, width: u16, height: u16) -> (r: Result<
        (),
        FbInkError,
    >) {
        self.crop_rect(FbInkRect { left, top, width, height })
    }

    fn crop_rect(&mut self, rect: FbInkRect) -> (r: Result<(), FbInkError>) {
        check_clip(self.area, rect)?;
        self.clip = rect;
        self.is_full = rect == self.area;
        Ok(())
    }

    /// The pixels under the clip go to the driver's raw print call, packed,
    /// at the clip's position. That call takes signed 16-bit offsets: a clip
    /// further right or down than that cannot be restored.
    fn restore(&self) -> (r: Result<RestorePlan, FbInkError>)
        ensures
            self.view().data.len() > 0 ==> if self.view().clip.left > i16::MAX
                || self.view().clip.top > i16::MAX {
                r matches Err(FbInkError::SunxiDumpError)
            } else {
                r matches Ok(RestorePlan::Print(job)) && job.data@ == self.view().clip_pixels()
                    && job.w == self.view().clip.width && job.h == self.view().clip.height
                    && job.x_off == self.view().clip.left && job.y_off == self.view().clip.top
            },
    {
        if self.data().len() == 0 {
            return Err(no_data());
        }
        let c = self.clip;
        if c.left > 0x7fff || c.top > 0x7fff {
            return Err(FbInkError::SunxiDumpError);
        }
        let data = if self.is_full {
            proof {
                lemma_crop_whole(self.image@);
            }
            self.image.to_bytes()
        } else {
            match self.image.crop(c.left as u32, c.top as u32, c.width as u32, c.height as u32) {
                Some(window) => window.to_bytes(),
                None => vstd::pervasive::unreached(),
            }
        };
        Ok(
            RestorePlan::Print(
                RawPrint {
                    data,
                    w: c.width as i32,
                    h: c.height as i32,
                    x_off: c.left as i16,
                    y_off: c.top as i16,
                },
            ),
        )
    }

    fn dynamic_image(&self) -> (r: Result<PixelImage, FbInkError>) {
        Ok(self.image.duplicate())
    }

    fn dynamic_image_ref(&mut self) -> (r: Result<&PixelImage, FbInkError>) {
        Ok(&self.image)
    }
}

/// Cropping to a nonempty rectangle inside the area makes that rectangle the
/// clip, clears `is_full` unless the rectangle is the whole area, and leaves
/// the bytes and the rest of the snapshot as they were.
pub proof fn lemma_crop_sets_clip(
    before: DumpView,
    rect: FbInkRect,
    after: DumpView,
    r: Result<(), FbInkError>,
)
    requires
        before.wf(),
        before.area.admits(rect),
        crop_outcome(before, rect, after, r),
    ensures
        r is Ok,
        after.wf(),
        after.clip == rect,
        after.is_full <==> rect == before.area,
        after.data == before.data,
        after.area == before.area,
        after.stride == before.stride,
        after.bpp == before.bpp,
        after.rota == before.rota,
        after.image() == before.image(),
{
}

/// Cropping to a rectangle that is empty or reaches outside the area fails
/// with `InvalidArgument` and changes nothing.
pub proof fn lemma_crop_refusal(
    before: DumpView,
    rect: FbInkRect,
    after: DumpView,
    r: Result<(), FbInkError>,
)
    requires
        !before.area.admits(rect),
        crop_outcome(before, rect, after, r),
    ensures
        r matches Err(FbInkError::InvalidArgument(_)),
        after == before,
{
}

/// A restore that hands the captured buffer back writes the bytes of the
/// pixels inside the clip and of no other pixel of the area: byte `k` of the
/// pixel at `(x, y)` is written exactly when the clip covers `(x, y)`.
pub proof fn lemma_restore_writes_only_clip(dump: DumpView, x: int, y: int, k: int)
    requires
        dump.wf(),
        dump.area.covers(x, y),
        0 <= k < dump.bytes_per_pixel(),
    ensures
        0 <= dump.byte_index(x, y, k) < dump.data.len(),
        dump.restores_byte(dump.byte_index(x, y, k)) <==> dump.clip.covers(x, y),
{
    let stride = dump.stride as int;
    let size = dump.bytes_per_pixel();
    let w = dump.area.width as int;
    let h = dump.area.height as int;
    let cw = dump.clip.width as int;
    let down = dump.clip.top - dump.area.top;
    let along = dump.clip.left - dump.area.left;
    let py = y - dump.area.top;
    let px = x - dump.area.left;
    let i = dump.byte_index(x, y, k);
    let inner = px * size + k;
    lemma_clip_offset_bounds(dump);
    // A scanline holds the pixels of the area, so positions inside a pixel
    // row stay inside the scanline.
    assert(w * (8 * size) <= w * dump.bpp) by (nonlinear_arith)
        requires
            8 * size <= dump.bpp,
            0 <= w,
    ;
    assert(w * (8 * size) == 8 * (w * size)) by (nonlinear_arith);
    assert(w * size <= stride);
    assert(0 <= inner < w * size) by (nonlinear_arith)
        requires
            inner == px * size + k,
            0 <= px < w,
            0 <= k < size,
    ;
    assert(0 <= py * stride <= (h - 1) * stride) by (nonlinear_arith)
        requires
            0 <= py <= h - 1,
            0 <= stride,
    ;
    assert((h - 1) * stride == stride * h - stride) by (nonlinear_arith);
    assert(i == py * stride + inner);
    assert((along + cw) * size <= w * size) by (nonlinear_arith)
        requires
            along + cw <= w,
            0 <= size,
    ;
    assert((along + cw) * size == along * size + cw * size) by (nonlinear_arith);
    if dump.clip.covers(x, y) {
        let row = y - dump.clip.top;
        assert(dump.clip_row_start(row) == py * stride + along * size) by (nonlinear_arith)
            requires
                dump.clip_row_start(row) == down * stride + along * size + row * stride,
                py == down + row,
        ;
        assert(along * size <= inner < along * size + cw * size) by (nonlinear_arith)
            requires
                inner == px * size + k,
                along <= px < along + cw,
                0 <= k < size,
        ;
        assert(0 <= row < dump.clip.height && dump.clip_row_start(row) <= i < dump.clip_row_start(
            row,
        ) + dump.clip.width * size);
    }
    if dump.restores_byte(i) {
        let row = choose|row: int|
            0 <= row < dump.clip.height && #[trigger] dump.clip_row_start(row) <= i
                < dump.clip_row_start(row) + dump.clip.width * dump.bytes_per_pixel();
        let t = i - dump.clip_row_start(row);
        let other = along * size + t;
        assert(dump.clip_row_start(row) == (down + row) * stride + along * size)
            by (nonlinear_arith)
            requires
                dump.clip_row_start(row) == down * stride + along * size + row * stride,
        ;
        assert(i == (down + row) * stride + other);
        assert(0 <= other < stride);
        assert(stride > 0);
        lemma_fundamental_div_mod_converse(i, stride, py, inner);
        lemma_fundamental_div_mod_converse(i, stride, down + row, other);
        assert(py == down + row);
        assert(inner == other);
        assert(along <= px < along + cw) by (nonlinear_arith)
            requires
                px * size + k == along * size + t,
                0 <= t < cw * size,
                0 <= k < size,
        ;
    }
}

/// A restore that prints packed pixels prints the pixels inside the clip and
/// no others: the job holds one pixel for each position of the clip, and the
/// pixel for `(x, y)` is the captured pixel at `(x, y)`.
pub proof fn lemma_restore_prints_only_clip(dump: DumpView, x: int, y: int, c: int)
    requires
        dump.wf(),
        dump.image() is Some,
        dump.clip.covers(x, y),
        0 <= c < dump.image().unwrap().layout().spec_channels(),
    ensures
        ({
            let image = dump.image().unwrap();
            let printed = image.remapped(dump.clip_window());
            &&& printed.wf()
            &&& printed.width == dump.clip.width
            &&& printed.height == dump.clip.height
            &&& printed.bytes() == dump.clip_pixels()
            &&& printed.sample(x - dump.clip.left, y - dump.clip.top, c) == image.sample(
                x - dump.area.left,
                y - dump.area.top,
                c,
            )
        }),
{
    let image = dump.image().unwrap();
    let layout = dump.layout().unwrap();
    lemma_data_covers_image(dump, layout);
    lemma_of_bytes_wf(dump.data, dump.area.width as nat, dump.area.height as nat, layout);
    lemma_remapped_sample(image, dump.clip_window(), x - dump.clip.left, y - dump.clip.top, c);
}

} // verus!
