//! Channel-tagged pixel images and the geometric operations on them.
//!
//! An image is a row-major vector of samples. Every operation here is stated
//! pixel by pixel: the sample at `(x, y, c)` of the result is the sample at a
//! named position of the source.

use vstd::arithmetic::div_mod::{lemma_fundamental_div_mod, lemma_fundamental_div_mod_converse};
use vstd::prelude::*;

verus! {

/// How the samples of one pixel are laid out.
#[derive(Debug, Clone, Copy, PartialEq, Eq, Structural)]
pub enum PixelLayout {
    /// One 8-bit grayscale sample.
    Luma8,
    /// One 16-bit grayscale sample.
    Luma16,
    /// Red, green and blue, 8 bits each.
    Rgb8,
    /// Red, green, blue and alpha, 8 bits each.
    Rgba8,
}

impl PixelLayout {
    /// Samples per pixel.
    pub open spec fn spec_channels(self) -> nat {
        match self {
            PixelLayout::Luma8 => 1,
            PixelLayout::Luma16 => 1,
            PixelLayout::Rgb8 => 3,
            PixelLayout::Rgba8 => 4,
        }
    }

    /// Bits per pixel.
    pub open spec fn spec_bits_per_pixel(self) -> u8 {
        match self {
            PixelLayout::Luma8 => 8,
            PixelLayout::Luma16 => 16,
            PixelLayout::Rgb8 => 24,
            PixelLayout::Rgba8 => 32,
        }
    }

    /// The layout that a framebuffer depth decodes to, if any.
    pub open spec fn spec_from_bpp(bpp: u8) -> Option<PixelLayout> {
        if bpp == 32 {
            Some(PixelLayout::Rgba8)
        } else if bpp == 24 {
            Some(PixelLayout::Rgb8)
        } else if bpp == 16 {
            Some(PixelLayout::Luma16)
        } else if bpp == 8 {
            Some(PixelLayout::Luma8)
        } else {
            None
        }
    }

    /// Bytes that one pixel takes in a raw buffer.
    pub open spec fn spec_bytes_per_pixel(self) -> nat {
        match self {
            PixelLayout::Luma8 => 1,
            PixelLayout::Luma16 => 2,
            PixelLayout::Rgb8 => 3,
            PixelLayout::Rgba8 => 4,
        }
    }

    pub fn bytes_per_pixel(self) -> (r: usize)
        ensures
            r == self.spec_bytes_per_pixel(),
            r * 8 == self.spec_bits_per_pixel(),
            1 <= r <= 4,
    {
        match self {
            PixelLayout::Luma8 => 1,
            PixelLayout::Luma16 => 2,
            PixelLayout::Rgb8 => 3,
            PixelLayout::Rgba8 => 4,
        }
    }

    pub fn channels(self) -> (r: usize)
        ensures
            r == self.spec_channels(),
            1 <= r <= 4,
    {
        match self {
            PixelLayout::Luma8 => 1,
            PixelLayout::Luma16 => 1,
            PixelLayout::Rgb8 => 3,
            PixelLayout::Rgba8 => 4,
        }
    }

    #[verifier::when_used_as_spec(spec_bits_per_pixel)]
    pub fn bits_per_pixel(self) -> (r: u8)
        ensures
            r == self.spec_bits_per_pixel(),
    {
        match self {
            PixelLayout::Luma8 => 8,
            PixelLayout::Luma16 => 16,
            PixelLayout::Rgb8 => 24,
            PixelLayout::Rgba8 => 32,
        }
    }

    #[verifier::when_used_as_spec(spec_from_bpp)]
    pub fn from_bpp(bpp: u8) -> (r: Option<PixelLayout>)
        ensures
            r == Self::spec_from_bpp(bpp),
    {
        if bpp == 32 {
            Some(PixelLayout::Rgba8)
        } else if bpp == 24 {
            Some(PixelLayout::Rgb8)
        } else if bpp == 16 {
            Some(PixelLayout::Luma16)
        } else if bpp == 8 {
            Some(PixelLayout::Luma8)
        } else {
            None
        }
    }
}

/// The samples of an image, tagged with their layout.
#[derive(Debug, Clone)]
pub enum Pixels {
    Luma8(Vec<u8>),
    Luma16(Vec<u16>),
    Rgb8(Vec<u8>),
    Rgba8(Vec<u8>),
}

/// The mathematical content of [`Pixels`].
pub enum PixelsView {
    Luma8(Seq<u8>),
    Luma16(Seq<u16>),
    Rgb8(Seq<u8>),
    Rgba8(Seq<u8>),
}

impl PixelsView {
    pub open spec fn layout(self) -> PixelLayout {
        match self {
            PixelsView::Luma8(_) => PixelLayout::Luma8,
            PixelsView::Luma16(_) => PixelLayout::Luma16,
            PixelsView::Rgb8(_) => PixelLayout::Rgb8,
            PixelsView::Rgba8(_) => PixelLayout::Rgba8,
        }
    }

    /// Number of samples.
    pub open spec fn len(self) -> nat {
        match self {
            PixelsView::Luma8(s) => s.len(),
            PixelsView::Luma16(s) => s.len(),
            PixelsView::Rgb8(s) => s.len(),
            PixelsView::Rgba8(s) => s.len(),
        }
    }

    /// The raw bytes that hold the samples.
    pub open spec fn bytes(self) -> Seq<u8> {
        match self {
            PixelsView::Luma8(s) => s,
            PixelsView::Luma16(s) => bytes_of_samples(s),
            PixelsView::Rgb8(s) => s,
            PixelsView::Rgba8(s) => s,
        }
    }

    /// The first `count` samples of the given layout that a raw buffer holds.
    pub open spec fn of_bytes(bytes: Seq<u8>, layout: PixelLayout, count: nat) -> PixelsView {
        match layout {
            PixelLayout::Luma8 => PixelsView::Luma8(bytes.subrange(0, count as int)),
            PixelLayout::Luma16 => PixelsView::Luma16(samples_of_bytes(bytes, count)),
            PixelLayout::Rgb8 => PixelsView::Rgb8(bytes.subrange(0, count as int)),
            PixelLayout::Rgba8 => PixelsView::Rgba8(bytes.subrange(0, count as int)),
        }
    }

    /// The sample at index `i`, as a number.
    pub open spec fn sample(self, i: int) -> int {
        match self {
            PixelsView::Luma8(s) => s[i] as int,
            PixelsView::Luma16(s) => s[i] as int,
            PixelsView::Rgb8(s) => s[i] as int,
            PixelsView::Rgba8(s) => s[i] as int,
        }
    }
}

impl View for Pixels {
    type V = PixelsView;

    open spec fn view(&self) -> PixelsView {
        match self {
            Pixels::Luma8(v) => PixelsView::Luma8(v@),
            Pixels::Luma16(v) => PixelsView::Luma16(v@),
            Pixels::Rgb8(v) => PixelsView::Rgb8(v@),
            Pixels::Rgba8(v) => PixelsView::Rgba8(v@),
        }
    }
}

impl Pixels {
    pub fn layout(&self) -> (r: PixelLayout)
        ensures
            r == self@.layout(),
    {
        match self {
            Pixels::Luma8(_) => PixelLayout::Luma8,
            Pixels::Luma16(_) => PixelLayout::Luma16,
            Pixels::Rgb8(_) => PixelLayout::Rgb8,
            Pixels::Rgba8(_) => PixelLayout::Rgba8,
        }
    }

    pub fn len(&self) -> (r: usize)
        ensures
            r == self@.len(),
    {
        match self {
            Pixels::Luma8(v) => v.len(),
            Pixels::Luma16(v) => v.len(),
            Pixels::Rgb8(v) => v.len(),
            Pixels::Rgba8(v) => v.len(),
        }
    }
}

/// The 16-bit sample that two adjacent bytes of a raw buffer hold, `first` at
/// the lower address, in the byte order of the executing machine.
pub open spec fn native_u16(first: u8, second: u8) -> u16 {
    match vstd::endian::endianness() {
        vstd::endian::Endian::Little => (first + 256 * second) as u16,
        vstd::endian::Endian::Big => (256 * first + second) as u16,
    }
}

/// The two bytes that hold a 16-bit sample in a raw buffer, lower address
/// first, in the byte order of the executing machine.
pub open spec fn native_bytes(sample: u16) -> (u8, u8) {
    match vstd::endian::endianness() {
        vstd::endian::Endian::Little => ((sample % 256) as u8, (sample / 256) as u8),
        vstd::endian::Endian::Big => ((sample / 256) as u8, (sample % 256) as u8),
    }
}

/// `u16::from_ne_bytes`: the sample that two bytes hold, read in the byte
/// order of the executing machine.
#[verifier::external_body]
fn sample_from_bytes(first: u8, second: u8) -> (r: u16)
    ensures
        r == native_u16(first, second),
{
    u16::from_ne_bytes([first, second])
}

/// `u16::to_ne_bytes`: the two bytes that hold a sample, written in the byte
/// order of the executing machine.
#[verifier::external_body]
fn sample_to_bytes(sample: u16) -> (r: (u8, u8))
    ensures
        r == native_bytes(sample),
{
    let pair = sample.to_ne_bytes();
    (pair[0], pair[1])
}

/// Writing a sample and reading it back gives the sample, and the other way
/// round.
pub proof fn lemma_native_round_trip(sample: u16, first: u8, second: u8)
    ensures
        native_u16(native_bytes(sample).0, native_bytes(sample).1) == sample,
        native_bytes(native_u16(first, second)) == (first, second),
{
}

/// The 16-bit samples that the first `2 * count` bytes hold.
pub open spec fn samples_of_bytes(bytes: Seq<u8>, count: nat) -> Seq<u16> {
    Seq::new(count, |i: int| native_u16(bytes[2 * i], bytes[2 * i + 1]))
}

/// The bytes that hold the samples, two each.
pub open spec fn bytes_of_samples(samples: Seq<u16>) -> Seq<u8> {
    Seq::new(
        2 * samples.len(),
        |i: int|
            if i % 2 == 0 {
                native_bytes(samples[i / 2]).0
            } else {
                native_bytes(samples[i / 2]).1
            },
    )
}

/// A geometric rearrangement of the pixels of an image.
#[derive(Debug, Clone, Copy, PartialEq, Eq, Structural)]
pub enum Remap {
    /// Mirror top to bottom.
    FlipVertical,
    /// Turn a quarter clockwise.
    Rotate90,
    /// Turn upside down.
    Rotate180,
    /// Turn a quarter counterclockwise.
    Rotate270,
    /// Keep the window of `width` by `height` pixels whose top left corner is
    /// at `(left, top)`.
    Crop { left: u32, top: u32, width: u32, height: u32 },
}

impl Remap {
    /// True when the rearrangement is defined on an image of `w` by `h`
    /// pixels: a crop window must lie inside the image.
    pub open spec fn fits(self, w: int, h: int) -> bool {
        match self {
            Remap::Crop { left, top, width, height } => left + width <= w && top + height <= h,
            _ => true,
        }
    }

    pub open spec fn out_width(self, w: int, h: int) -> int {
        match self {
            Remap::FlipVertical => w,
            Remap::Rotate90 => h,
            Remap::Rotate180 => w,
            Remap::Rotate270 => h,
            Remap::Crop { left, top, width, height } => width as int,
        }
    }

    pub open spec fn out_height(self, w: int, h: int) -> int {
        match self {
            Remap::FlipVertical => h,
            Remap::Rotate90 => w,
            Remap::Rotate180 => h,
            Remap::Rotate270 => w,
            Remap::Crop { left, top, width, height } => height as int,
        }
    }

    /// The position in a source of `w` by `h` pixels of the pixel that lands
    /// at `(x, y)` of the result.
    pub open spec fn source(self, w: int, h: int, x: int, y: int) -> (int, int) {
        match self {
            Remap::FlipVertical => (x, h - 1 - y),
            Remap::Rotate90 => (y, h - 1 - x),
            Remap::Rotate180 => (w - 1 - x, h - 1 - y),
            Remap::Rotate270 => (w - 1 - y, x),
            Remap::Crop { left, top, width, height } => (left + x, top + y),
        }
    }

    fn out_dims(self, w: u32, h: u32) -> (r: (u32, u32))
        ensures
            r.0 == self.out_width(w as int, h as int),
            r.1 == self.out_height(w as int, h as int),
    {
        match self {
            Remap::FlipVertical => (w, h),
            Remap::Rotate90 => (h, w),
            Remap::Rotate180 => (w, h),
            Remap::Rotate270 => (h, w),
            Remap::Crop { left, top, width, height } => (width, height),
        }
    }

    fn source_of(self, w: usize, h: usize, x: usize, y: usize) -> (r: (usize, usize))
        requires
            self.fits(w as int, h as int),
            x < self.out_width(w as int, h as int),
            y < self.out_height(w as int, h as int),
        ensures
            (r.0 as int, r.1 as int) == self.source(w as int, h as int, x as int, y as int),
            r.0 < w,
            r.1 < h,
    {
        match self {
            Remap::FlipVertical => (x, h - 1 - y),
            Remap::Rotate90 => (y, h - 1 - x),
            Remap::Rotate180 => (w - 1 - x, h - 1 - y),
            Remap::Rotate270 => (w - 1 - y, x),
            Remap::Crop { left, top, width, height } => {
                let left_px: usize = left as usize;
                let top_px: usize = top as usize;
                (left_px + x, top_px + y)
            },
        }
    }
}

/// Index of sample `c` of the pixel at `(x, y)` in a row-major image `w`
/// pixels wide with `ch` samples per pixel.
pub open spec fn sample_index(w: int, ch: int, x: int, y: int, c: int) -> int {
    (y * w + x) * ch + c
}

/// The samples `src` of an image of `w` by `h` pixels, `ch` samples each,
/// rearranged by `kind`.
pub open spec fn remapped_samples<T>(src: Seq<T>, w: int, h: int, ch: int, kind: Remap) -> Seq<T> {
    let ow = kind.out_width(w, h);
    let oh = kind.out_height(w, h);
    Seq::new(
        (ow * oh * ch) as nat,
        |i: int|
            {
                let p = i / ch;
                let from = kind.source(w, h, p % ow, p / ow);
                src[sample_index(w, ch, from.0, from.1, i % ch)]
            },
    )
}

/// Sample indices of pixels inside the image lie inside the sample vector.
pub proof fn lemma_sample_index_bounds(w: int, h: int, ch: int, x: int, y: int, c: int)
    requires
        0 <= x < w,
        0 <= y < h,
        0 <= c < ch,
    ensures
        0 <= sample_index(w, ch, x, y, c) < w * h * ch,
        0 <= y * w + x < w * h,
        0 <= y * w <= w * h - w,
        w * h <= w * h * ch,
{
    assert(w * h <= w * h * ch) by (nonlinear_arith)
        requires
            0 < w,
            0 < h,
            0 < ch,
    ;
    assert(0 <= y * w <= (h - 1) * w) by (nonlinear_arith)
        requires
            0 <= y <= h - 1,
            0 < w,
    ;
    assert((h - 1) * w == w * h - w) by (nonlinear_arith);
    let p = y * w + x;
    assert(0 <= p * ch <= (w * h - 1) * ch) by (nonlinear_arith)
        requires
            0 <= p <= w * h - 1,
            0 < ch,
    ;
    assert((w * h - 1) * ch == w * h * ch - ch) by (nonlinear_arith);
}

/// Distinct sample positions have distinct indices, and the index determines
/// the position.
pub proof fn lemma_sample_index_split(w: int, ch: int, x: int, y: int, c: int)
    requires
        0 <= x < w,
        0 <= y,
        0 <= c < ch,
    ensures
        sample_index(w, ch, x, y, c) / ch == y * w + x,
        sample_index(w, ch, x, y, c) % ch == c,
        (y * w + x) / w == y,
        (y * w + x) % w == x,
{
    lemma_fundamental_div_mod_converse(sample_index(w, ch, x, y, c), ch, y * w + x, c);
    lemma_fundamental_div_mod_converse(y * w + x, w, y, x);
}

fn remap_samples<T: Copy>(src: &Vec<T>, w: u32, h: u32, ch: usize, kind: Remap) -> (out: Vec<T>)
    requires
        src.len() == w * h * ch,
        1 <= ch <= 4,
        kind.fits(w as int, h as int),
        kind.out_width(w as int, h as int) * kind.out_height(w as int, h as int) * ch
            <= usize::MAX,
    ensures
        out@ == remapped_samples(src@, w as int, h as int, ch as int, kind),
{
    let (out_w, out_h) = kind.out_dims(w, h);
    let ow: usize = out_w as usize;
    let oh: usize = out_h as usize;
    let sw: usize = w as usize;
    let sh: usize = h as usize;
    let ghost want = remapped_samples(src@, w as int, h as int, ch as int, kind);
    let mut out: Vec<T> = Vec::new();
    let mut y: usize = 0;
    while y < oh
        invariant
            src.len() == w * h * ch,
            1 <= ch <= 4,
            kind.fits(w as int, h as int),
            ow == kind.out_width(w as int, h as int),
            oh == kind.out_height(w as int, h as int),
            ow * oh * ch <= usize::MAX,
            sw == w,
            sh == h,
            want == remapped_samples(src@, w as int, h as int, ch as int, kind),
            y <= oh,
            out.len() == y * ow * ch,
            want.len() == ow * oh * ch,
            out.len() <= want.len(),
            forall|i: int| 0 <= i < out.len() ==> out[i] == want[i],
        decreases oh - y,
    {
        let mut x: usize = 0;
        while x < ow
            invariant
                src.len() == w * h * ch,
                1 <= ch <= 4,
                kind.fits(w as int, h as int),
                ow == kind.out_width(w as int, h as int),
                oh == kind.out_height(w as int, h as int),
                ow * oh * ch <= usize::MAX,
                sw == w,
                sh == h,
                want == remapped_samples(src@, w as int, h as int, ch as int, kind),
                y < oh,
                x <= ow,
                out.len() == (y * ow + x) * ch,
                want.len() == ow * oh * ch,
                out.len() <= want.len(),
                forall|i: int| 0 <= i < out.len() ==> out[i] == want[i],
            decreases ow - x,
        {
            let (sx, sy) = kind.source_of(sw, sh, x, y);
            proof {
                lemma_sample_index_bounds(w as int, h as int, ch as int, sx as int, sy as int, 0);
                lemma_sample_index_bounds(ow as int, oh as int, ch as int, x as int, y as int, 0);
            }
            let base: usize = (sy * sw + sx) * ch;
            let mut c: usize = 0;
            while c < ch
                invariant
                    src.len() == w * h * ch,
                    1 <= ch <= 4,
                    ow == kind.out_width(w as int, h as int),
                    oh == kind.out_height(w as int, h as int),
                    ow * oh * ch <= usize::MAX,
                    want == remapped_samples(src@, w as int, h as int, ch as int, kind),
                    y < oh,
                    x < ow,
                    sx < w,
                    sy < h,
                    (sx as int, sy as int) == kind.source(w as int, h as int, x as int, y as int),
                    base == sample_index(w as int, ch as int, sx as int, sy as int, 0),
                    c <= ch,
                    out.len() == sample_index(ow as int, ch as int, x as int, y as int, c as int),
                    want.len() == ow * oh * ch,
                    out.len() <= want.len(),
                    forall|i: int| 0 <= i < out.len() ==> out[i] == want[i],
                decreases ch - c,
            {
                proof {
                    lemma_sample_index_bounds(
                        w as int,
                        h as int,
                        ch as int,
                        sx as int,
                        sy as int,
                        c as int,
                    );
                    lemma_sample_index_bounds(
                        ow as int,
                        oh as int,
                        ch as int,
                        x as int,
                        y as int,
                        c as int,
                    );
                    lemma_sample_index_split(ow as int, ch as int, x as int, y as int, c as int);
                }
                out.push(src[base + c]);
                c += 1;
            }
            x += 1;
            assert((y * ow + x) * ch == (y * ow + (x - 1)) * ch + ch) by (nonlinear_arith);
        }
        y += 1;
        assert(y * ow * ch == ((y - 1) * ow + ow) * ch) by (nonlinear_arith);
    }
    assert(out.len() == ow * oh * ch) by (nonlinear_arith)
        requires
            out.len() == y * ow * ch,
            y == oh,
    ;
    assert(out@ =~= want);
    out
}

/// The mathematical content of a [`PixelImage`].
pub struct ImageView {
    pub width: nat,
    pub height: nat,
    pub pixels: PixelsView,
}

impl ImageView {
    pub open spec fn layout(self) -> PixelLayout {
        self.pixels.layout()
    }

    /// The sample vector has one entry per channel of every pixel.
    pub open spec fn wf(self) -> bool {
        self.pixels.len() == self.width * self.height * self.layout().spec_channels()
    }

    /// The image of `width` by `height` pixels that the leading bytes of a raw
    /// buffer hold, read as a typed pixel array.
    pub open spec fn of_bytes(bytes: Seq<u8>, width: nat, height: nat, layout: PixelLayout)
        -> ImageView {
        ImageView {
            width,
            height,
            pixels: PixelsView::of_bytes(bytes, layout, width * height * layout.spec_channels()),
        }
    }

    /// The raw bytes of the image.
    pub open spec fn bytes(self) -> Seq<u8> {
        self.pixels.bytes()
    }

    /// Sample `c` of the pixel at `(x, y)`.
    pub open spec fn sample(self, x: int, y: int, c: int) -> int {
        self.pixels.sample(
            sample_index(self.width as int, self.layout().spec_channels() as int, x, y, c),
        )
    }

    /// The image rearranged by `kind`.
    pub open spec fn remapped(self, kind: Remap) -> ImageView {
        let w = self.width as int;
        let h = self.height as int;
        let ch = self.layout().spec_channels() as int;
        ImageView {
            width: kind.out_width(w, h) as nat,
            height: kind.out_height(w, h) as nat,
            pixels: match self.pixels {
                PixelsView::Luma8(s) => PixelsView::Luma8(remapped_samples(s, w, h, ch, kind)),
                PixelsView::Luma16(s) => PixelsView::Luma16(remapped_samples(s, w, h, ch, kind)),
                PixelsView::Rgb8(s) => PixelsView::Rgb8(remapped_samples(s, w, h, ch, kind)),
                PixelsView::Rgba8(s) => PixelsView::Rgba8(remapped_samples(s, w, h, ch, kind)),
            },
        }
    }
}

/// Every sample of a rearranged image is the sample of the source pixel that
/// the rearrangement names, and the result has the stated dimensions.
pub proof fn lemma_remapped_sample(img: ImageView, kind: Remap, x: int, y: int, c: int)
    requires
        img.wf(),
        kind.fits(img.width as int, img.height as int),
        0 <= x < kind.out_width(img.width as int, img.height as int),
        0 <= y < kind.out_height(img.width as int, img.height as int),
        0 <= c < img.layout().spec_channels(),
    ensures
        img.remapped(kind).wf(),
        img.remapped(kind).layout() == img.layout(),
        ({
            let from = kind.source(img.width as int, img.height as int, x, y);
            &&& 0 <= from.0 < img.width
            &&& 0 <= from.1 < img.height
            &&& img.remapped(kind).sample(x, y, c) == img.sample(from.0, from.1, c)
        }),
{
    let w = img.width as int;
    let h = img.height as int;
    let ch = img.layout().spec_channels() as int;
    let ow = kind.out_width(w, h);
    let oh = kind.out_height(w, h);
    lemma_sample_index_bounds(ow, oh, ch, x, y, c);
    lemma_sample_index_split(ow, ch, x, y, c);
}

/// A copy of the first `count` bytes.
fn leading_bytes(bytes: &[u8], count: usize) -> (out: Vec<u8>)
    requires
        count <= bytes@.len(),
    ensures
        out@ == bytes@.subrange(0, count as int),
{
    let mut out: Vec<u8> = Vec::new();
    let mut i: usize = 0;
    while i < count
        invariant
            count <= bytes@.len(),
            i <= count,
            out@ == bytes@.subrange(0, i as int),
        decreases count - i,
    {
        out.push(bytes[i]);
        i += 1;
        assert(out@ =~= bytes@.subrange(0, i as int));
    }
    out
}

/// The first `count` 16-bit samples of a raw buffer.
fn leading_samples(bytes: &[u8], count: usize) -> (out: Vec<u16>)
    requires
        2 * count <= bytes@.len(),
    ensures
        out@ == samples_of_bytes(bytes@, count as nat),
{
    let len = bytes.len();
    let mut out: Vec<u16> = Vec::new();
    let mut i: usize = 0;
    while i < count
        invariant
            2 * count <= bytes@.len(),
            len == bytes@.len(),
            i <= count,
            out@ == samples_of_bytes(bytes@, i as nat),
        decreases count - i,
    {
        out.push(sample_from_bytes(bytes[2 * i], bytes[2 * i + 1]));
        i += 1;
        assert(out@ =~= samples_of_bytes(bytes@, i as nat));
    }
    out
}

/// The raw bytes of 16-bit samples.
fn sample_bytes(samples: &Vec<u16>) -> (out: Vec<u8>)
    ensures
        out@ == bytes_of_samples(samples@),
{
    let mut out: Vec<u8> = Vec::new();
    let mut i: usize = 0;
    while i < samples.len()
        invariant
            i <= samples.len(),
            out@ == bytes_of_samples(samples@.subrange(0, i as int)),
        decreases samples.len() - i,
    {
        let pair = sample_to_bytes(samples[i]);
        out.push(pair.0);
        out.push(pair.1);
        i += 1;
        assert(out@ =~= bytes_of_samples(samples@.subrange(0, i as int)));
    }
    assert(samples@.subrange(0, i as int) =~= samples@);
    out
}

/// A raster image: `width * height` pixels in row-major order, top row first.
#[derive(Debug, Clone)]
pub struct PixelImage {
    pub(crate) width: u32,
    pub(crate) height: u32,
    pub(crate) pixels: Pixels,
}

impl View for PixelImage {
    type V = ImageView;

    closed spec fn view(&self) -> ImageView {
        ImageView { width: self.width as nat, height: self.height as nat, pixels: self.pixels@ }
    }
}

impl PixelImage {
    /// The invariant of the type: the sample vector matches the dimensions.
    pub open spec fn wf(&self) -> bool {
        &&& self@.wf()
        &&& self@.width <= u32::MAX
        &&& self@.height <= u32::MAX
    }

    /// Builds an image from its samples. `None` when the number of samples is
    /// not `width * height` times the layout's channel count.
    pub fn new(width: u32, height: u32, pixels: Pixels) -> (r: Option<PixelImage>)
        ensures
            r matches Some(img) ==> img.wf() && img@ == (ImageView {
                width: width as nat,
                height: height as nat,
                pixels: pixels@,
            }),
            r is Some <==> pixels@.len() == width * height * pixels@.layout().spec_channels(),
    {
        let ch: u128 = pixels.layout().channels() as u128;
        let w: u128 = width as u128;
        let h: u128 = height as u128;
        assert(w * h <= 0xffff_ffff * 0xffff_ffff) by (nonlinear_arith)
            requires
                0 <= w <= 0xffff_ffff,
                0 <= h <= 0xffff_ffff,
        ;
        let count: u128 = w * h;
        assert(count * ch <= 0xffff_ffff * 0xffff_ffff * 4) by (nonlinear_arith)
            requires
                0 <= count <= 0xffff_ffff * 0xffff_ffff,
                1 <= ch <= 4,
        ;
        let want: u128 = count * ch;
        if pixels.len() as u128 == want {
            Some(PixelImage { width, height, pixels })
        } else {
            None
        }
    }

    pub fn width(&self) -> (r: u32)
        ensures
            r == self@.width,
    {
        self.width
    }

    pub fn height(&self) -> (r: u32)
        ensures
            r == self@.height,
    {
        self.height
    }

    pub fn layout(&self) -> (r: PixelLayout)
        ensures
            r == self@.layout(),
    {
        self.pixels.layout()
    }

    /// The samples, in row-major order.
    pub fn pixels(&self) -> (r: &Pixels)
        ensures
            r@ == self@.pixels,
    {
        &self.pixels
    }

    /// Reads the leading bytes of a raw buffer as an image of `width` by
    /// `height` pixels. `None` when the buffer is too short for that.
    pub fn from_bytes(bytes: &[u8], width: u32, height: u32, layout: PixelLayout) -> (r: Option<
        PixelImage,
    >)
        ensures
            r is Some <==> bytes@.len() >= width * height * layout.spec_bytes_per_pixel(),
            r matches Some(img) ==> img.wf() && img@ == ImageView::of_bytes(
                bytes@,
                width as nat,
                height as nat,
                layout,
            ),
    {
        let bpp: u128 = layout.bytes_per_pixel() as u128;
        let w: u128 = width as u128;
        let h: u128 = height as u128;
        assert(w * h <= 0xffff_ffff * 0xffff_ffff) by (nonlinear_arith)
            requires
                0 <= w <= 0xffff_ffff,
                0 <= h <= 0xffff_ffff,
        ;
        let area: u128 = w * h;
        assert(area * bpp <= 0xffff_ffff * 0xffff_ffff * 4) by (nonlinear_arith)
            requires
                0 <= area <= 0xffff_ffff * 0xffff_ffff,
                1 <= bpp <= 4,
        ;
        if (bytes.len() as u128) < area * bpp {
            return None;
        }
        assert(area * 1 <= area * bpp) by (nonlinear_arith)
            requires
                area >= 0,
                bpp >= 1,
        ;
        let pixel_count: usize = area as usize;
        let byte_count: usize = (area * bpp) as usize;
        assert(bpp == 2 ==> byte_count == 2 * pixel_count) by (nonlinear_arith)
            requires
                byte_count == area * bpp,
                pixel_count == area,
        ;
        let pixels = match layout {
            PixelLayout::Luma8 => Pixels::Luma8(leading_bytes(bytes, byte_count)),
            PixelLayout::Luma16 => Pixels::Luma16(leading_samples(bytes, pixel_count)),
            PixelLayout::Rgb8 => Pixels::Rgb8(leading_bytes(bytes, byte_count)),
            PixelLayout::Rgba8 => Pixels::Rgba8(leading_bytes(bytes, byte_count)),
        };
        Some(PixelImage { width, height, pixels })
    }

    /// A copy of the image.
    pub fn duplicate(&self) -> (r: PixelImage)
        ensures
            r@ == self@,
            self.wf() ==> r.wf(),
    {
        let pixels = match &self.pixels {
            Pixels::Luma8(v) => Pixels::Luma8(v.clone()),
            Pixels::Luma16(v) => Pixels::Luma16(v.clone()),
            Pixels::Rgb8(v) => Pixels::Rgb8(v.clone()),
            Pixels::Rgba8(v) => Pixels::Rgba8(v.clone()),
        };
        PixelImage { width: self.width, height: self.height, pixels }
    }

    /// The raw bytes of the image, as a driver or an encoder takes them.
    pub fn to_bytes(&self) -> (r: Vec<u8>)
        ensures
            r@ == self@.bytes(),
    {
        match &self.pixels {
            Pixels::Luma8(v) => leading_bytes(v.as_slice(), v.len()),
            Pixels::Luma16(v) => sample_bytes(v),
            Pixels::Rgb8(v) => leading_bytes(v.as_slice(), v.len()),
            Pixels::Rgba8(v) => leading_bytes(v.as_slice(), v.len()),
        }
    }

    /// The image rearranged by `kind`.
    fn remap(&self, kind: Remap) -> (r: PixelImage)
        requires
            self.wf(),
            kind.fits(self@.width as int, self@.height as int),
        ensures
            r.wf(),
            r@ == self@.remapped(kind),
    {
        let ch = self.pixels.layout().channels();
        let count = self.pixels.len();
        let (ow, oh) = kind.out_dims(self.width, self.height);
        proof {
            let w = self.width as int;
            let h = self.height as int;
            // The result holds no more pixels than the source.
            match kind {
                Remap::Crop { left, top, width, height } => {
                    assert(width * height <= w * h) by (nonlinear_arith)
                        requires
                            0 <= width <= w,
                            0 <= height <= h,
                    ;
                },
                _ => {
                    assert(h * w == w * h) by (nonlinear_arith);
                },
            }
            assert(ow * oh <= w * h);
            assert(ow * oh * ch <= w * h * ch) by (nonlinear_arith)
                requires
                    ow * oh <= w * h,
                    ch >= 1,
            ;
            assert(count == w * h * ch);
        }
        let pixels = match &self.pixels {
            Pixels::Luma8(v) => Pixels::Luma8(remap_samples(v, self.width, self.height, ch, kind)),
            Pixels::Luma16(v) => Pixels::Luma16(
                remap_samples(v, self.width, self.height, ch, kind),
            ),
            Pixels::Rgb8(v) => Pixels::Rgb8(remap_samples(v, self.width, self.height, ch, kind)),
            Pixels::Rgba8(v) => Pixels::Rgba8(remap_samples(v, self.width, self.height, ch, kind)),
        };
        PixelImage { width: ow, height: oh, pixels }
    }

    /// The image mirrored top to bottom.
    pub fn flip_vertical(&self) -> (r: PixelImage)
        requires
            self.wf(),
        ensures
            r.wf(),
            r@ == self@.remapped(Remap::FlipVertical),
    {
        self.remap(Remap::FlipVertical)
    }

    /// The image turned a quarter clockwise.
    pub fn rotate90(&self) -> (r: PixelImage)
        requires
            self.wf(),
        ensures
            r.wf(),
            r@ == self@.remapped(Remap::Rotate90),
    {
        self.remap(Remap::Rotate90)
    }

    /// The image turned upside down.
    pub fn rotate180(&self) -> (r: PixelImage)
        requires
            self.wf(),
        ensures
            r.wf(),
            r@ == self@.remapped(Remap::Rotate180),
    {
        self.remap(Remap::Rotate180)
    }

    /// The image turned a quarter counterclockwise.
    pub fn rotate270(&self) -> (r: PixelImage)
        requires
            self.wf(),
        ensures
            r.wf(),
            r@ == self@.remapped(Remap::Rotate270),
    {
        self.remap(Remap::Rotate270)
    }

    /// The window of `width` by `height` pixels at `(left, top)`; `None` when
    /// the window reaches outside the image.
    pub fn crop(&self, left: u32, top: u32, width: u32, height: u32) -> (r: Option<PixelImage>)
        requires
            self.wf(),
        ensures
            r is Some <==> (Remap::Crop { left, top, width, height }).fits(
                self@.width as int,
                self@.height as int,
            ),
            r matches Some(img) ==> img.wf() && img@ == self@.remapped(
                Remap::Crop { left, top, width, height },
            ),
    {
        let right: u64 = left as u64 + width as u64;
        let bottom: u64 = top as u64 + height as u64;
        if right <= self.width as u64 && bottom <= self.height as u64 {
            Some(self.remap(Remap::Crop { left, top, width, height }))
        } else {
            None
        }
    }
}

/// The image read from a buffer that covers it is well formed.
pub proof fn lemma_of_bytes_wf(bytes: Seq<u8>, width: nat, height: nat, layout: PixelLayout)
    requires
        bytes.len() >= width * height * layout.spec_bytes_per_pixel(),
    ensures
        ImageView::of_bytes(bytes, width, height, layout).wf(),
        ImageView::of_bytes(bytes, width, height, layout).layout() == layout,
        ImageView::of_bytes(bytes, width, height, layout).width == width,
        ImageView::of_bytes(bytes, width, height, layout).height == height,
{
    assert(width * height * 2 >= width * height * 1) by (nonlinear_arith);
}

/// Cropping a sample vector to the full extent of its image changes nothing.
pub proof fn lemma_crop_whole_samples<T>(s: Seq<T>, w: int, h: int, ch: int)
    requires
        0 <= w <= u32::MAX,
        0 <= h <= u32::MAX,
        0 < ch,
        s.len() == w * h * ch,
    ensures
        remapped_samples(
            s,
            w,
            h,
            ch,
            Remap::Crop { left: 0, top: 0, width: w as u32, height: h as u32 },
        ) == s,
{
    let kind = Remap::Crop { left: 0, top: 0, width: w as u32, height: h as u32 };
    let out = remapped_samples(s, w, h, ch, kind);
    assert forall|i: int| 0 <= i < s.len() implies #[trigger] out[i] == s[i] by {
        let p = i / ch;
        lemma_fundamental_div_mod(i, ch);
        assert(w > 0) by (nonlinear_arith)
            requires
                0 <= i < w * h * ch,
                w >= 0,
                h >= 0,
                ch > 0,
        ;
        lemma_fundamental_div_mod(p, w);
        assert((p / w) * w == w * (p / w)) by (nonlinear_arith);
        assert(p * ch == ch * p) by (nonlinear_arith);
    }
    assert(out =~= s);
}

/// Cropping an image to its full extent changes nothing.
pub proof fn lemma_crop_whole(img: ImageView)
    requires
        img.wf(),
        img.width <= u32::MAX,
        img.height <= u32::MAX,
    ensures
        img.remapped(
            Remap::Crop { left: 0, top: 0, width: img.width as u32, height: img.height as u32 },
        ) == img,
{
    let w = img.width as int;
    let h = img.height as int;
    let ch = img.layout().spec_channels() as int;
    match img.pixels {
        PixelsView::Luma8(s) => {
            lemma_crop_whole_samples(s, w, h, ch);
        },
        PixelsView::Luma16(s) => {
            lemma_crop_whole_samples(s, w, h, ch);
        },
        PixelsView::Rgb8(s) => {
            lemma_crop_whole_samples(s, w, h, ch);
        },
        PixelsView::Rgba8(s) => {
            lemma_crop_whole_samples(s, w, h, ch);
        },
    }
}

/// Reading the raw bytes of an image back with its own dimensions and layout
/// gives the image.
pub proof fn lemma_bytes_round_trip(img: ImageView)
    requires
        img.wf(),
    ensures
        img.bytes().len() == img.width * img.height * img.layout().spec_bytes_per_pixel(),
        ImageView::of_bytes(img.bytes(), img.width, img.height, img.layout()) == img,
{
    let count = img.width * img.height * img.layout().spec_channels();
    match img.pixels {
        PixelsView::Luma16(s) => {
            let bytes = bytes_of_samples(s);
            assert forall|i: int| 0 <= i < s.len() implies #[trigger] samples_of_bytes(
                bytes,
                count,
            )[i] == s[i] by {
                lemma_native_round_trip(s[i], 0, 0);
            }
            assert(samples_of_bytes(bytes, count) =~= s);
            assert(count * 2 == img.width * img.height * 2) by (nonlinear_arith)
                requires
                    count == img.width * img.height * 1,
            ;
        },
        PixelsView::Luma8(s) => {
            assert(s.subrange(0, count as int) =~= s);
        },
        PixelsView::Rgb8(s) => {
            assert(s.subrange(0, count as int) =~= s);
        },
        PixelsView::Rgba8(s) => {
            assert(s.subrange(0, count as int) =~= s);
        },
    }
}

} // verus!
