use vstd::arithmetic::div_mod::lemma_fundamental_div_mod_converse;
use vstd::prelude::*;

use crate::pattern::{offsets_of, BayerPattern};
use crate::raw::{RawImage, RawImageView};

verus! {

/// Bits per stored channel sample, as a PNG header declares it.
#[derive(Clone, Copy, Debug, PartialEq, Eq, Structural)]
pub enum BitDepth {
    One,
    Two,
    Four,
    Eight,
    Sixteen,
}

pub open spec fn bits_of(d: BitDepth) -> u32 {
    match d {
        BitDepth::One => 1,
        BitDepth::Two => 2,
        BitDepth::Four => 4,
        BitDepth::Eight => 8,
        BitDepth::Sixteen => 16,
    }
}

impl BitDepth {
    pub fn to_u32(&self) -> (r: u32)
        ensures
            r == bits_of(*self),
    {
        match self {
            BitDepth::One => 1,
            BitDepth::Two => 2,
            BitDepth::Four => 4,
            BitDepth::Eight => 8,
            BitDepth::Sixteen => 16,
        }
    }
}

/// How a decoder lays out the samples of one pixel.
#[derive(Clone, Copy, Debug, PartialEq, Eq, Structural)]
pub enum PixelLayout {
    Grayscale,
    GrayscaleAlpha,
    Indexed,
    Rgb,
    Rgba,
}

/// The pixel layouts that can be re-mosaiced.
#[derive(Clone, Copy, Debug, PartialEq, Eq, Structural)]
pub enum ColorType {
    RGB,
    RGBA,
}

pub open spec fn channels_of(c: ColorType) -> nat {
    match c {
        ColorType::RGB => 3,
        ColorType::RGBA => 4,
    }
}

/// The colour type for a decoded layout; `None` for every layout without
/// separate red, green and blue samples.
pub open spec fn color_type_of(l: PixelLayout) -> Option<ColorType> {
    match l {
        PixelLayout::Rgb => Some(ColorType::RGB),
        PixelLayout::Rgba => Some(ColorType::RGBA),
        _ => None,
    }
}

impl ColorType {
    pub fn from_layout(layout: PixelLayout) -> (r: Option<ColorType>)
        ensures
            r == color_type_of(layout),
    {
        match layout {
            PixelLayout::Rgb => Some(ColorType::RGB),
            PixelLayout::Rgba => Some(ColorType::RGBA),
            _ => None,
        }
    }

    /// Samples per pixel.
    pub fn channel_count(&self) -> (r: usize)
        ensures
            r == channels_of(*self),
    {
        match self {
            ColorType::RGB => 3,
            ColorType::RGBA => 4,
        }
    }
}

/// The 16-bit value that a source byte becomes once moved up by `shift` bits.
pub open spec fn scaled(b: u8, shift: u32) -> u16 {
    ((b as u16) << shift) as u16
}

/// What an `RgbImage` holds.
pub struct RgbImageView {
    pub width: u32,
    pub height: u32,
    pub pixels: Seq<u8>,
    pub color_type: ColorType,
    pub bit_depth: BitDepth,
}

impl RgbImageView {
    pub open spec fn even_width(self) -> int {
        self.width - self.width % 2
    }

    pub open spec fn even_height(self) -> int {
        self.height - self.height % 2
    }

    pub open spec fn shift(self) -> u32 {
        (16 - bits_of(self.bit_depth)) as u32
    }

    /// The source pixel read for output pixel (`r`, `c`). Where the source
    /// width is odd, the row of the enclosing tile is added to make up for
    /// the dropped column.
    pub open spec fn source_pixel(self, r: int, c: int) -> int {
        r * self.even_width() + c + if self.width % 2 == 0 {
            0
        } else {
            r - r % 2
        }
    }

    /// The source byte read for output pixel (`r`, `c`): the channel that the
    /// pattern assigns to the pixel's place in its 2x2 tile.
    pub open spec fn source_byte(self, p: BayerPattern, r: int, c: int) -> int {
        self.source_pixel(r, c) * channels_of(self.color_type) + offsets_of(p)[2 * (r % 2) + c
            % 2]
    }

    /// The output sample at row `r`, column `c`.
    pub open spec fn sample(self, p: BayerPattern, r: int, c: int) -> u16 {
        scaled(self.pixels[self.source_byte(p, r, c)], self.shift())
    }

    /// The output sample at row-major position `i`.
    pub open spec fn sample_at(self, p: BayerPattern, i: int) -> u16 {
        self.sample(p, i / self.even_width(), i % self.even_width())
    }
}

/// `raw` is the mosaic of `src` under pattern `p`: `src` cropped to even
/// dimensions, each pixel holding the one sample that the pattern assigns it.
pub open spec fn is_mosaic(raw: RawImageView, src: RgbImageView, p: BayerPattern) -> bool {
    &&& raw.width == src.even_width()
    &&& raw.height == src.even_height()
    &&& raw.bayer_pattern == p
    &&& raw.data.len() == src.even_width() * src.even_height()
    &&& forall|i: int| 0 <= i < raw.data.len() ==> #[trigger] raw.data[i] == src.sample_at(p, i)
}

/// An image of even width and height keeps all its pixels: the raw buffer
/// holds exactly `width * height` samples.
pub proof fn lemma_even_image_not_cropped(raw: RawImageView, src: RgbImageView, p: BayerPattern)
    requires
        is_mosaic(raw, src, p),
        src.width % 2 == 0,
        src.height % 2 == 0,
    ensures
        raw.width == src.width,
        raw.height == src.height,
        raw.data.len() == src.width * src.height,
{
}

/// An odd width loses the last column and an odd height the last row, and no
/// sample is taken from the dropped last row.
pub proof fn lemma_odd_side_cropped(raw: RawImageView, src: RgbImageView, p: BayerPattern)
    requires
        is_mosaic(raw, src, p),
    ensures
        raw.width == if src.width % 2 == 1 { src.width - 1 } else { src.width as int },
        raw.height == if src.height % 2 == 1 { src.height - 1 } else { src.height as int },
        forall|r: int, c: int|
            0 <= r < raw.height && 0 <= c < raw.width ==> #[trigger] src.source_pixel(r, c)
                < raw.height * src.width,
{
    assert forall|r: int, c: int|
        0 <= r < raw.height && 0 <= c < raw.width implies #[trigger] src.source_pixel(r, c)
        < raw.height * src.width by {
        lemma_source_pixel_bounds(src, r, c);
    }
}

/// Mosaicing holds no state: two mosaics of one image under one pattern are
/// the same raw image.
pub proof fn lemma_mosaic_deterministic(
    a: RawImageView,
    b: RawImageView,
    src: RgbImageView,
    p: BayerPattern,
)
    requires
        is_mosaic(a, src, p),
        is_mosaic(b, src, p),
    ensures
        a == b,
{
    assert(a.data =~= b.data);
}

/// The shift is `16 - bit_depth`: a 16-bit sample is stored as it is and an
/// 8-bit sample moves up by eight bits.
pub proof fn lemma_shift_by_depth(src: RgbImageView, b: u8)
    ensures
        src.shift() == 16 - bits_of(src.bit_depth),
        src.bit_depth == BitDepth::Sixteen ==> scaled(b, src.shift()) == b as u16,
        src.bit_depth == BitDepth::Eight ==> scaled(b, src.shift()) == b as u16 * 256,
{
    assert(((b as u16) << 0u32) as u16 == b as u16) by (bit_vector);
    assert(((b as u16) << 8u32) as u16 == (b as u16) * 256) by (bit_vector);
}

/// A decoded RGB or RGBA raster, row-major and channel-interleaved.
pub struct RgbImage {
    width: u32,
    height: u32,
    data: Vec<u8>,
    color_type: ColorType,
    bit_depth: BitDepth,
}

impl View for RgbImage {
    type V = RgbImageView;

    closed spec fn view(&self) -> RgbImageView {
        RgbImageView {
            width: self.width,
            height: self.height,
            pixels: self.data@,
            color_type: self.color_type,
            bit_depth: self.bit_depth,
        }
    }
}

/// Source pixels read by the mosaic lie before the first dropped row.
proof fn lemma_source_pixel_bounds(v: RgbImageView, r: int, c: int)
    requires
        0 <= r < v.even_height(),
        0 <= c < v.even_width(),
    ensures
        0 <= v.source_pixel(r, c) < v.even_height() * v.width,
        v.even_height() * v.width <= v.height * v.width,
{
    let w = v.width as int;
    let ew = v.even_width();
    let eh = v.even_height();
    assert(r * w + c < (r + 1) * w) by (nonlinear_arith)
        requires
            0 <= c < w,
    ;
    assert((r + 1) * w <= eh * w) by (nonlinear_arith)
        requires
            r + 1 <= eh,
            w >= 0,
    ;
    assert(eh * w <= v.height * w) by (nonlinear_arith)
        requires
            eh <= v.height,
            w >= 0,
    ;
    if w % 2 == 0 {
        assert(ew == w);
    } else {
        assert(r * ew + r == r * w) by (nonlinear_arith)
            requires
                ew == w - 1,
        ;
    }
    assert(0 <= r * ew) by (nonlinear_arith)
        requires
            0 <= r,
            0 <= ew,
    ;
}

impl RgbImage {
    #[verifier::type_invariant]
    spec fn inv(&self) -> bool {
        self.data@.len() >= self.width * self.height * channels_of(self.color_type)
    }

    /// An image of `width` by `height` pixels; `None` when `data` holds fewer
    /// than one byte for each channel of each pixel.
    pub fn new(
        width: u32,
        height: u32,
        data: Vec<u8>,
        color_type: ColorType,
        bit_depth: BitDepth,
    ) -> (r: Option<RgbImage>)
        ensures
            r is Some <==> data@.len() >= width * height * channels_of(color_type),
            r matches Some(img) ==> img@ == (RgbImageView {
                width,
                height,
                pixels: data@,
                color_type,
                bit_depth,
            }),
    {
        let cc = color_type.channel_count();
        assert((width as u128) * (height as u128) <= 0xFFFF_FFFF_FFFF_FFFF) by (nonlinear_arith)
            requires
                width <= 0xFFFF_FFFFu32,
                height <= 0xFFFF_FFFFu32,
        ;
        let pixels: u128 = (width as u128) * (height as u128);
        let needed: u128 = pixels * (cc as u128);
        assert(needed == width * height * channels_of(color_type)) by (nonlinear_arith)
            requires
                needed == (width as u128) * (height as u128) * (cc as u128),
                cc == channels_of(color_type),
                cc <= 4,
                width <= u32::MAX,
                height <= u32::MAX,
        ;
        if (data.len() as u128) >= needed {
            Some(RgbImage { width, height, data, color_type, bit_depth })
        } else {
            None
        }
    }

    pub fn width(&self) -> (r: u32)
        ensures
            r == self@.width,
    {
        self.width
    }

    pub fn height(&self) -> (r: u32)
        ensures
            r == self@.height,
    {
        self.height
    }

    fn even_width(&self) -> (r: u32)
        ensures
            r == self@.even_width(),
    {
        if self.width % 2 == 0 {
            self.width
        } else {
            self.width - 1
        }
    }

    fn even_height(&self) -> (r: u32)
        ensures
            r == self@.even_height(),
    {
        if self.height % 2 == 0 {
            self.height
        } else {
            self.height - 1
        }
    }

    /// Pixels left once the image is cropped to even dimensions.
    fn even_size(&self) -> (r: usize)
        ensures
            r == self@.even_width() * self@.even_height(),
    {
        proof {
            use_type_invariant(self);
        }
        let ew = self.even_width() as usize;
        let eh = self.even_height() as usize;
        let len = self.data.len();
        assert(ew * eh <= len) by (nonlinear_arith)
            requires
                len == self.data@.len(),
                ew <= self.width,
                eh <= self.height,
                self.data@.len() >= self.width * self.height * channels_of(self.color_type),
                channels_of(self.color_type) >= 1,
        ;
        ew * eh
    }

    /// Re-mosaics the image with `bayer_pattern`: the result is cropped to even
    /// dimensions and each of its pixels holds the one channel that the
    /// pattern assigns to it, moved to the top of 16 bits.
    pub fn to_raw(self, bayer_pattern: BayerPattern) -> (r: RawImage)
        ensures
            is_mosaic(r@, self@, bayer_pattern),
    {
        proof {
            use_type_invariant(&self);
        }
        let ghost v = self@;
        let ew = self.even_width();
        let eh = self.even_height();
        let size = self.even_size();
        let ewu = ew as usize;
        let ehu = eh as usize;
        let odd = self.width % 2 != 0;
        let cc = self.color_type.channel_count();
        let offsets = bayer_pattern.color_offsets();
        let shift: u32 = 16 - self.bit_depth.to_u32();
        let ghost total = v.height * v.width * cc;
        let n = self.data.len();
        let mut data: Vec<u16> = Vec::with_capacity(size);
        let mut row: usize = 0;
        while row < ehu
            invariant
                v == self@,
                ewu == v.even_width(),
                ehu == v.even_height(),
                size == ewu * ehu,
                odd == (v.width % 2 != 0),
                cc == channels_of(v.color_type),
                offsets@ == offsets_of(bayer_pattern),
                shift == v.shift(),
                total <= v.pixels.len(),
                n == v.pixels.len(),
                total == v.height * v.width * cc,
                row <= ehu,
                data@.len() == row * ewu,
                forall|i: int| 0 <= i < data@.len() ==> #[trigger] data@[i] == v.sample_at(bayer_pattern, i),
            decreases ehu - row,
        {
            let parity_offset: usize = if odd { row - row % 2 } else { 0 };
            let mut column: usize = 0;
            while column < ewu
                invariant
                    v == self@,
                    ewu == v.even_width(),
                    ehu == v.even_height(),
                    size == ewu * ehu,
                    cc == channels_of(v.color_type),
                    offsets@ == offsets_of(bayer_pattern),
                    shift == v.shift(),
                    total <= v.pixels.len(),
                    n == v.pixels.len(),
                    total == v.height * v.width * cc,
                    row < ehu,
                    column <= ewu,
                    parity_offset == (if v.width % 2 == 0 { 0 } else { row - row % 2 }),
                    data@.len() == row * ewu + column,
                    forall|i: int| 0 <= i < data@.len() ==> #[trigger] data@[i] == v.sample_at(bayer_pattern, i),
                decreases ewu - column,
            {
                proof {
                    lemma_source_pixel_bounds(v, row as int, column as int);
                    assert(v.source_pixel(row as int, column as int) * cc + 3 < total + 1) by (nonlinear_arith)
                        requires
                            v.source_pixel(row as int, column as int) < v.height * v.width,
                            total == v.height * v.width * cc,
                            cc >= 3,
                    ;
                    assert(row * ewu + column < size) by (nonlinear_arith)
                        requires
                            row < ehu,
                            column < ewu,
                            size == ewu * ehu,
                    ;
                }
                let pixel: usize = row * ewu + column + parity_offset;
                let slot: usize = 2 * (row % 2) + column % 2;
                let index: usize = pixel * cc + offsets[slot] as usize;
                let value: u16 = (self.data[index] as u16) << shift;
                proof {
                    let k = row * ewu + column;
                    lemma_fundamental_div_mod_converse(k as int, ewu as int, row as int, column as int);
                    assert(index == v.source_byte(bayer_pattern, row as int, column as int));
                }
                data.push(value);
                column = column + 1;
            }
            proof {
                assert((row + 1) * ewu == row * ewu + ewu) by (nonlinear_arith);
            }
            row = row + 1;
        }
        assert(data@.len() == ew * eh) by (nonlinear_arith)
            requires
                data@.len() == row * ewu,
                row == ehu,
                ewu == ew,
                ehu == eh,
        ;
        RawImage::from_samples(ew, eh, data, bayer_pattern)
    }
}

} // verus!
