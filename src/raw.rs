use byteorder::{ByteOrder, LittleEndian};
use vstd::prelude::*;

use crate::pattern::{offsets_of, BayerPattern};

verus! {

pub const TAG_NEW_SUBFILE_TYPE: u16 = 0x00FE;
pub const TAG_IMAGE_WIDTH: u16 = 0x0100;
pub const TAG_IMAGE_LENGTH: u16 = 0x0101;
pub const TAG_BITS_PER_SAMPLE: u16 = 0x0102;
pub const TAG_COMPRESSION: u16 = 0x0103;
pub const TAG_PHOTOMETRIC_INTERPRETATION: u16 = 0x0106;
pub const TAG_STRIP_OFFSETS: u16 = 0x0111;
pub const TAG_ORIENTATION: u16 = 0x0112;
pub const TAG_SAMPLES_PER_PIXEL: u16 = 0x0115;
pub const TAG_ROWS_PER_STRIP: u16 = 0x0116;
pub const TAG_STRIP_BYTE_COUNTS: u16 = 0x0117;
pub const TAG_CFA_REPEAT_PATTERN_DIM: u16 = 0x828D;
pub const TAG_CFA_PATTERN_2: u16 = 0x828E;
pub const TAG_DNG_VERSION: u16 = 0xC612;
pub const TAG_COLOR_MATRIX_1: u16 = 0xC621;
pub const TAG_AS_SHOT_NEUTRAL: u16 = 0xC628;
pub const TAG_AS_SHOT_WHITE_XY: u16 = 0xC629;

/// PhotometricInterpretation value for colour filter array data.
pub const PHOTOMETRIC_CFA: u16 = 32803;

/// The values of one directory entry, by TIFF field type.
pub enum TagValues {
    Byte(Vec<u8>),
    Short(Vec<u16>),
    Long(Vec<u32>),
    SRational(Vec<(i32, i32)>),
    /// A block of bytes stored apart from the directory; the entry holds its
    /// offset in the file.
    Strip(Vec<u8>),
}

/// What a `TagValues` holds.
pub enum TagValuesView {
    Byte(Seq<u8>),
    Short(Seq<u16>),
    Long(Seq<u32>),
    SRational(Seq<(i32, i32)>),
    Strip(Seq<u8>),
}

impl View for TagValues {
    type V = TagValuesView;

    open spec fn view(&self) -> TagValuesView {
        match self {
            TagValues::Byte(v) => TagValuesView::Byte(v@),
            TagValues::Short(v) => TagValuesView::Short(v@),
            TagValues::Long(v) => TagValuesView::Long(v@),
            TagValues::SRational(v) => TagValuesView::SRational(v@),
            TagValues::Strip(v) => TagValuesView::Strip(v@),
        }
    }
}

/// One entry of an image file directory.
pub struct DngEntry {
    pub tag: u16,
    pub values: TagValues,
}

pub open spec fn entries_view(s: Seq<DngEntry>) -> Seq<(u16, TagValuesView)> {
    s.map_values(|e: DngEntry| (e.tag, e.values@))
}

/// Each sample as two bytes, the low byte first.
pub open spec fn le_encoding(s: Seq<u16>) -> Seq<u8> {
    Seq::new(
        2 * s.len(),
        |j: int|
            if j % 2 == 0 {
                (s[j / 2] % 256) as u8
            } else {
                (s[j / 2] / 256) as u8
            },
    )
}

/// The fixed camera-to-XYZ matrix, row by row, as signed rationals.
pub open spec fn color_matrix_spec() -> Seq<(i32, i32)> {
    seq![
        (4124564i32, 10000000i32),
        (3575761i32, 10000000i32),
        (1804375i32, 10000000i32),
        (2126729i32, 10000000i32),
        (7151522i32, 10000000i32),
        (721750i32, 10000000i32),
        (193339i32, 10000000i32),
        (1191920i32, 10000000i32),
        (9503041i32, 10000000i32),
    ]
}

/// The directory of the single image of a DNG file holding `raw`.
pub open spec fn dng_directory(raw: RawImageView) -> Seq<(u16, TagValuesView)> {
    seq![
        (TAG_PHOTOMETRIC_INTERPRETATION, TagValuesView::Short(seq![PHOTOMETRIC_CFA])),
        (TAG_NEW_SUBFILE_TYPE, TagValuesView::Long(seq![0u32])),
        (TAG_IMAGE_WIDTH, TagValuesView::Long(seq![raw.width])),
        (TAG_IMAGE_LENGTH, TagValuesView::Long(seq![raw.height])),
        (TAG_BITS_PER_SAMPLE, TagValuesView::Short(seq![16u16])),
        (TAG_COMPRESSION, TagValuesView::Short(seq![1u16])),
        (TAG_ORIENTATION, TagValuesView::Short(seq![1u16])),
        (TAG_SAMPLES_PER_PIXEL, TagValuesView::Short(seq![1u16])),
        (TAG_ROWS_PER_STRIP, TagValuesView::Long(seq![raw.height])),
        (TAG_STRIP_BYTE_COUNTS, TagValuesView::Long(seq![(raw.width * raw.height * 2) as u32])),
        (TAG_CFA_REPEAT_PATTERN_DIM, TagValuesView::Short(seq![2u16, 2u16])),
        (TAG_CFA_PATTERN_2, TagValuesView::Byte(offsets_of(raw.bayer_pattern))),
        (TAG_DNG_VERSION, TagValuesView::Byte(seq![1u8, 4u8, 0u8, 0u8])),
        (TAG_COLOR_MATRIX_1, TagValuesView::SRational(color_matrix_spec())),
        (TAG_AS_SHOT_NEUTRAL, TagValuesView::SRational(seq![(1i32, 1i32), (1i32, 1i32), (1i32, 1i32)])),
        (TAG_AS_SHOT_WHITE_XY, TagValuesView::SRational(seq![(1i32, 1i32), (1i32, 1i32)])),
        (TAG_STRIP_OFFSETS, TagValuesView::Strip(le_encoding(raw.data))),
    ]
}

/// The StripByteCounts entry of the directory holds the length of the strip
/// that the StripOffsets entry points to: two bytes per pixel.
pub proof fn lemma_strip_byte_count_is_strip_length(raw: RawImageView)
    requires
        raw.data.len() == raw.width * raw.height,
        raw.width * raw.height * 2 <= u32::MAX,
    ensures
        dng_directory(raw)[9] == (
            TAG_STRIP_BYTE_COUNTS,
            TagValuesView::Long(seq![le_encoding(raw.data).len() as u32]),
        ),
        dng_directory(raw)[16] == (TAG_STRIP_OFFSETS, TagValuesView::Strip(le_encoding(raw.data))),
        le_encoding(raw.data).len() == raw.width * raw.height * 2,
{
}

/// Relies on byteorder's `LittleEndian::write_u16`: the low byte, then the
/// high byte.
#[verifier::external_body]
fn u16_le_bytes(n: u16) -> (r: [u8; 2])
    ensures
        r@ == seq![(n % 256) as u8, (n / 256) as u8],
{
    let mut buf = [0u8; 2];
    LittleEndian::write_u16(&mut buf, n);
    buf
}

fn color_matrix() -> (r: Vec<(i32, i32)>)
    ensures
        r@ == color_matrix_spec(),
{
    let r = vec![
        (4124564i32, 10000000i32),
        (3575761i32, 10000000i32),
        (1804375i32, 10000000i32),
        (2126729i32, 10000000i32),
        (7151522i32, 10000000i32),
        (721750i32, 10000000i32),
        (193339i32, 10000000i32),
        (1191920i32, 10000000i32),
        (9503041i32, 10000000i32),
    ];
    assert(r@ =~= color_matrix_spec());
    r
}

/// What a `RawImage` holds.
pub struct RawImageView {
    pub width: u32,
    pub height: u32,
    pub data: Seq<u16>,
    pub bayer_pattern: BayerPattern,
}

/// A single-channel 16-bit Bayer buffer, one sample per pixel, row-major.
pub struct RawImage {
    width: u32,
    height: u32,
    data: Vec<u16>,
    bayer_pattern: BayerPattern,
}

impl View for RawImage {
    type V = RawImageView;

    closed spec fn view(&self) -> RawImageView {
        RawImageView {
            width: self.width,
            height: self.height,
            data: self.data@,
            bayer_pattern: self.bayer_pattern,
        }
    }
}

impl RawImage {
    #[verifier::type_invariant]
    spec fn inv(&self) -> bool {
        self.data@.len() == self.width * self.height
    }

    pub(crate) fn from_samples(
        width: u32,
        height: u32,
        data: Vec<u16>,
        bayer_pattern: BayerPattern,
    ) -> (r: RawImage)
        requires
            data@.len() == width * height,
        ensures
            r@ == (RawImageView { width, height, data: data@, bayer_pattern }),
    {
        RawImage { width, height, data, bayer_pattern }
    }

    /// A raw image of the given size; `None` unless `data` holds exactly
    /// `width * height` samples.
    pub fn new(width: u32, height: u32, data: Vec<u16>, bayer_pattern: BayerPattern) -> (r:
        Option<RawImage>)
        ensures
            r is Some <==> data@.len() == width * height,
            r matches Some(img) ==> img@ == (RawImageView {
                width,
                height,
                data: data@,
                bayer_pattern,
            }),
    {
        assert((width as u128) * (height as u128) <= 0xFFFF_FFFF_FFFF_FFFF) by (nonlinear_arith)
            requires
                width <= 0xFFFF_FFFFu32,
                height <= 0xFFFF_FFFFu32,
        ;
        if (data.len() as u128) == (width as u128) * (height as u128) {
            Some(RawImage { width, height, data, bayer_pattern })
        } else {
            None
        }
    }

    pub fn width(&self) -> (r: u32)
        ensures
            r == self@.width,
    {
        self.width
    }

    pub fn height(&self) -> (r: u32)
        ensures
            r == self@.height,
    {
        self.height
    }

    pub fn data(&self) -> (r: &Vec<u16>)
        ensures
            r@ == self@.data,
            r@.len() == self@.width * self@.height,
    {
        proof {
            use_type_invariant(self);
        }
        &self.data
    }

    pub fn bayer_pattern(&self) -> (r: BayerPattern)
        ensures
            r == self@.bayer_pattern,
    {
        self.bayer_pattern
    }

    /// The samples as one block of bytes, row-major, each low byte first.
    pub fn strip_bytes(&self) -> (r: Vec<u8>)
        ensures
            r@ == le_encoding(self@.data),
    {
        let n = self.data.len();
        let mut bytes: Vec<u8> = Vec::new();
        let mut i: usize = 0;
        while i < n
            invariant
                n == self.data@.len(),
                i <= n,
                bytes@.len() == 2 * i,
                forall|j: int| 0 <= j < 2 * i ==> #[trigger] bytes@[j] == le_encoding(self.data@)[j],
            decreases n - i,
        {
            let pair = u16_le_bytes(self.data[i]);
            bytes.push(pair[0]);
            bytes.push(pair[1]);
            i = i + 1;
        }
        assert(bytes@ =~= le_encoding(self.data@));
        bytes
    }

    /// The entries of the one image file directory of a DNG file holding
    /// this image, in the order they are added; the pixels form one strip.
    pub fn dng_entries(&self) -> (r: Vec<DngEntry>)
        requires
            self@.width * self@.height * 2 <= u32::MAX,
        ensures
            entries_view(r@) == dng_directory(self@),
    {
        let strip_byte_count: u32 = self.width * self.height * 2;
        let photometric = vec![PHOTOMETRIC_CFA];
        let subfile = vec![0u32];
        let width = vec![self.width];
        let height = vec![self.height];
        let bits = vec![16u16];
        let compression = vec![1u16];
        let orientation = vec![1u16];
        let samples = vec![1u16];
        let rows = vec![self.height];
        let counts = vec![strip_byte_count];
        let dim = vec![2u16, 2u16];
        let cfa = self.bayer_pattern.color_offsets();
        let version = vec![1u8, 4u8, 0u8, 0u8];
        let matrix = color_matrix();
        let neutral = vec![(1i32, 1i32), (1i32, 1i32), (1i32, 1i32)];
        let white = vec![(1i32, 1i32), (1i32, 1i32)];
        let strip = self.strip_bytes();
        assert(photometric@ =~= seq![PHOTOMETRIC_CFA]);
        assert(subfile@ =~= seq![0u32]);
        assert(width@ =~= seq![self.width]);
        assert(height@ =~= seq![self.height]);
        assert(bits@ =~= seq![16u16]);
        assert(compression@ =~= seq![1u16]);
        assert(orientation@ =~= seq![1u16]);
        assert(samples@ =~= seq![1u16]);
        assert(rows@ =~= seq![self.height]);
        assert(counts@ =~= seq![(self@.width * self@.height * 2) as u32]);
        assert(dim@ =~= seq![2u16, 2u16]);
        assert(version@ =~= seq![1u8, 4u8, 0u8, 0u8]);
        assert(neutral@ =~= seq![(1i32, 1i32), (1i32, 1i32), (1i32, 1i32)]);
        assert(white@ =~= seq![(1i32, 1i32), (1i32, 1i32)]);
        let r = vec![
            DngEntry { tag: TAG_PHOTOMETRIC_INTERPRETATION, values: TagValues::Short(photometric) },
            DngEntry { tag: TAG_NEW_SUBFILE_TYPE, values: TagValues::Long(subfile) },
            DngEntry { tag: TAG_IMAGE_WIDTH, values: TagValues::Long(width) },
            DngEntry { tag: TAG_IMAGE_LENGTH, values: TagValues::Long(height) },
            DngEntry { tag: TAG_BITS_PER_SAMPLE, values: TagValues::Short(bits) },
            DngEntry { tag: TAG_COMPRESSION, values: TagValues::Short(compression) },
            DngEntry { tag: TAG_ORIENTATION, values: TagValues::Short(orientation) },
            DngEntry { tag: TAG_SAMPLES_PER_PIXEL, values: TagValues::Short(samples) },
            DngEntry { tag: TAG_ROWS_PER_STRIP, values: TagValues::Long(rows) },
            DngEntry { tag: TAG_STRIP_BYTE_COUNTS, values: TagValues::Long(counts) },
            DngEntry { tag: TAG_CFA_REPEAT_PATTERN_DIM, values: TagValues::Short(dim) },
            DngEntry { tag: TAG_CFA_PATTERN_2, values: TagValues::Byte(cfa) },
            DngEntry { tag: TAG_DNG_VERSION, values: TagValues::Byte(version) },
            DngEntry { tag: TAG_COLOR_MATRIX_1, values: TagValues::SRational(matrix) },
            DngEntry { tag: TAG_AS_SHOT_NEUTRAL, values: TagValues::SRational(neutral) },
            DngEntry { tag: TAG_AS_SHOT_WHITE_XY, values: TagValues::SRational(white) },
            DngEntry { tag: TAG_STRIP_OFFSETS, values: TagValues::Strip(strip) },
        ];
        assert(entries_view(r@) =~= dng_directory(self@));
        r
    }
}

} // verus!
