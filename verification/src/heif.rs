//! HEIF/HEIC container recognition and the size limits that guard decoding.
//!
//! A HEIF file is an ISO base media file: a sequence of boxes, each with a
//! big-endian 32-bit size (0 = to the end, 1 = a 64-bit size follows) and a
//! four-byte type. The `ftyp` box names a major brand and compatible brands.
use std::sync::atomic::AtomicUsize;
use std::sync::Arc;
use vstd::prelude::*;
use vstd::string::StringExecFns;

verus! {

/// The largest decoded image accepted, in pixels (100 megapixels).
pub const MAX_DECODED_PIXELS: usize = 100_000_000;

/// How many leading bytes are searched for the `ftyp` box (64 KiB).
pub const HEIF_SCAN_LIMIT: usize = 65536;

/// Bytes per decoded color component (a 16-bit float).
pub const BYTES_PER_COMPONENT: usize = 2;

/// Why a HEIF input is refused or could not be prepared for decoding.
#[derive(Debug, Clone, Copy, PartialEq, Eq)]
pub enum HeifError {
    /// The bytes are not a HEIF container.
    NotHeifContainer,
    /// A dimension is zero.
    EmptyImage,
    /// `width * height` does not fit in `usize`.
    DimensionsOverflow,
    /// The image has more than `MAX_DECODED_PIXELS` pixels.
    TooLarge { width: usize, height: usize },
    /// The RGBA component count does not fit in `usize`.
    BufferSizeOverflow,
    /// The byte length of one row does not fit in `usize`.
    RowSizeOverflow,
    /// The width does not fit in `u32`.
    WidthTooLarge,
    /// The height does not fit in `u32`.
    HeightTooLarge,
    /// The load this decode belongs to was superseded.
    Cancelled,
}

/// The decimal digits of `n`, most significant first, with no sign, no
/// padding and no leading zero (zero is "0").
pub open spec fn decimal_digits(n: nat) -> Seq<char>
    decreases n,
{
    let digit = seq!['0', '1', '2', '3', '4', '5', '6', '7', '8', '9'][(n % 10) as int];
    if n < 10 {
        seq![digit]
    } else {
        decimal_digits(n / 10).push(digit)
    }
}

/// The message a HEIF refusal is reported with.
pub open spec fn heif_error_text(e: HeifError) -> Seq<char> {
    match e {
        HeifError::NotHeifContainer =>
            "The file extension is HEIC/HEIF, but the file is not a recognized HEIF container"@,
        HeifError::EmptyImage => "HEIC/HEIF decoder returned an empty image"@,
        HeifError::DimensionsOverflow => "HEIC/HEIF dimensions overflow"@,
        HeifError::TooLarge { width, height } => "HEIC/HEIF image is too large to decode safely ("@
            + decimal_digits(width as nat) + "x"@ + decimal_digits(height as nat) + "; maximum "@
            + decimal_digits((MAX_DECODED_PIXELS / 1_000_000) as nat) + " megapixels)"@,
        HeifError::BufferSizeOverflow => "HEIC/HEIF pixel buffer size overflow"@,
        HeifError::RowSizeOverflow => "HEIC/HEIF row size overflow"@,
        HeifError::WidthTooLarge => "HEIC/HEIF width exceeds RapidRAW's image limits"@,
        HeifError::HeightTooLarge => "HEIC/HEIF height exceeds RapidRAW's image limits"@,
        HeifError::Cancelled => "Load cancelled"@,
    }
}

/// The text of the single decimal digit `d`.
fn digit_text(d: usize) -> (s: &'static str)
    requires
        d < 10,
    ensures
        s@ == seq![seq!['0', '1', '2', '3', '4', '5', '6', '7', '8', '9'][d as int]],
{
    match d {
        0 => {
            proof {
                reveal_strlit("0");
            }
            "0"
        },
        1 => {
            proof {
                reveal_strlit("1");
            }
            "1"
        },
        2 => {
            proof {
                reveal_strlit("2");
            }
            "2"
        },
        3 => {
            proof {
                reveal_strlit("3");
            }
            "3"
        },
        4 => {
            proof {
                reveal_strlit("4");
            }
            "4"
        },
        5 => {
            proof {
                reveal_strlit("5");
            }
            "5"
        },
        6 => {
            proof {
                reveal_strlit("6");
            }
            "6"
        },
        7 => {
            proof {
                reveal_strlit("7");
            }
            "7"
        },
        8 => {
            proof {
                reveal_strlit("8");
            }
            "8"
        },
        _ => {
            proof {
                reveal_strlit("9");
            }
            "9"
        },
    }
}

/// `n` written in decimal.
fn decimal_text(n: usize) -> (s: String)
    ensures
        s@ == decimal_digits(n as nat),
    decreases n,
{
    let digit = digit_text(n % 10);
    if n < 10 {
        digit.to_owned()
    } else {
        let mut s = decimal_text(n / 10);
        s.append(digit);
        proof {
            assert(s@ =~= decimal_digits(n as nat));
        }
        s
    }
}

impl HeifError {
    /// The message this refusal is reported with.
    pub fn message(&self) -> (s: String)
        ensures
            s@ == heif_error_text(*self),
    {
        match self {
            HeifError::NotHeifContainer => {
                "The file extension is HEIC/HEIF, but the file is not a recognized HEIF container".to_owned()
            },
            HeifError::EmptyImage => "HEIC/HEIF decoder returned an empty image".to_owned(),
            HeifError::DimensionsOverflow => "HEIC/HEIF dimensions overflow".to_owned(),
            HeifError::TooLarge { width, height } => {
                let mut s = "HEIC/HEIF image is too large to decode safely (".to_owned();
                s.append(decimal_text(*width).as_str());
                s.append("x");
                s.append(decimal_text(*height).as_str());
                s.append("; maximum ");
                s.append(decimal_text(MAX_DECODED_PIXELS / 1_000_000).as_str());
                s.append(" megapixels)");
                s
            },
            HeifError::BufferSizeOverflow => "HEIC/HEIF pixel buffer size overflow".to_owned(),
            HeifError::RowSizeOverflow => "HEIC/HEIF row size overflow".to_owned(),
            HeifError::WidthTooLarge => "HEIC/HEIF width exceeds RapidRAW's image limits".to_owned(),
            HeifError::HeightTooLarge => "HEIC/HEIF height exceeds RapidRAW's image limits".to_owned(),
            HeifError::Cancelled => "Load cancelled".to_owned(),
        }
    }
}

/// The big-endian 32-bit number at `b[i..i + 4]`.
pub open spec fn be_u32_at(b: Seq<u8>, i: int) -> int {
    b[i] * 16777216 + b[i + 1] * 65536 + b[i + 2] * 256 + b[i + 3]
}

/// The big-endian 64-bit number at `b[i..i + 8]`.
pub open spec fn be_u64_at(b: Seq<u8>, i: int) -> int {
    be_u32_at(b, i) * 4294967296 + be_u32_at(b, i + 4)
}

/// Header length and total size of the box at `offset`, when its size field
/// can be read within `limit`.
pub open spec fn box_extent(b: Seq<u8>, limit: int, offset: int) -> Option<(int, int)> {
    let size32 = be_u32_at(b, offset);
    if size32 == 0 {
        Some((8, limit - offset))
    } else if size32 == 1 {
        if offset + 16 <= limit && be_u64_at(b, offset + 8) <= usize::MAX {
            Some((16, be_u64_at(b, offset + 8)))
        } else {
            None
        }
    } else {
        Some((8, size32))
    }
}

/// The box type `ftyp`.
pub open spec fn ftyp_type() -> Seq<u8> {
    seq![102u8, 116, 121, 112] /* "ftyp" */
}

/// The brands that identify HEIF content.
pub open spec fn is_heif_brand(brand: Seq<u8>) -> bool {
    ||| brand == seq![104u8, 101, 105, 99] /* "heic" */
    ||| brand == seq![104u8, 101, 105, 120] /* "heix" */
    ||| brand == seq![104u8, 101, 118, 99] /* "hevc" */
    ||| brand == seq![104u8, 101, 118, 120] /* "hevx" */
    ||| brand == seq![104u8, 101, 105, 109] /* "heim" */
    ||| brand == seq![104u8, 101, 105, 115] /* "heis" */
    ||| brand == seq![104u8, 101, 118, 109] /* "hevm" */
    ||| brand == seq![104u8, 101, 118, 115] /* "hevs" */
    ||| brand == seq![109u8, 105, 102, 49] /* "mif1" */
    ||| brand == seq![109u8, 115, 102, 49] /* "msf1" */
}

/// The `k`-th compatible brand of an `ftyp` payload (after the major brand
/// and the minor version).
pub open spec fn compatible_brand(payload: Seq<u8>, k: int) -> Seq<u8> {
    payload.subrange(8 + 4 * k, 12 + 4 * k)
}

/// An `ftyp` payload whose major brand, or one of whose whole compatible
/// brands, is a HEIF brand.
pub open spec fn ftyp_names_heif(payload: Seq<u8>) -> bool {
    ||| is_heif_brand(payload.subrange(0, 4))
    ||| exists|k: int|
        0 <= k && 12 + 4 * k <= payload.len() && is_heif_brand(#[trigger] compatible_brand(payload, k))
}

/// Walks the boxes from `offset` within `limit`: the first `ftyp` box
/// decides; a malformed box, or none left, means "not HEIF".
pub open spec fn heif_ftyp_found(b: Seq<u8>, limit: int, offset: int) -> bool
    decreases limit - offset,
{
    if offset < 0 || offset + 8 > limit {
        false
    } else {
        match box_extent(b, limit, offset) {
            None => false,
            Some((header, size)) => {
                if size < header || header < 8 || offset + size > limit {
                    false
                } else if b.subrange(offset + 4, offset + 8) == ftyp_type() {
                    let payload = b.subrange(offset + header, offset + size);
                    payload.len() >= 8 && ftyp_names_heif(payload)
                } else {
                    heif_ftyp_found(b, limit, offset + size)
                }
            },
        }
    }
}

/// The number of leading bytes that are searched.
pub open spec fn scan_limit(len: int) -> int {
    if len < HEIF_SCAN_LIMIT {
        len
    } else {
        HEIF_SCAN_LIMIT as int
    }
}

/// Whether `b` is a HEIF container as far as its leading boxes show.
pub open spec fn spec_looks_like_heif(b: Seq<u8>) -> bool {
    heif_ftyp_found(b, scan_limit(b.len() as int), 0)
}

/// The box walk within `limit` reads nothing at or after `limit`: inputs
/// that agree below it are walked alike.
proof fn lemma_walk_reads_below_limit(b: Seq<u8>, c: Seq<u8>, limit: int, offset: int)
    requires
        0 <= limit <= b.len(),
        limit <= c.len(),
        b.subrange(0, limit) == c.subrange(0, limit),
    ensures
        heif_ftyp_found(b, limit, offset) == heif_ftyp_found(c, limit, offset),
    decreases limit - offset,
{
    if offset >= 0 && offset + 8 <= limit {
        assert forall|i: int| 0 <= i < limit implies b[i] == c[i] by {
            assert(b.subrange(0, limit)[i] == b[i]);
            assert(c.subrange(0, limit)[i] == c[i]);
            assert(b.subrange(0, limit)[i] == c.subrange(0, limit)[i]);
        }
        assert(be_u32_at(b, offset) == be_u32_at(c, offset));
        if offset + 16 <= limit {
            assert(be_u64_at(b, offset + 8) == be_u64_at(c, offset + 8));
        }
        assert(box_extent(b, limit, offset) == box_extent(c, limit, offset));
        match box_extent(b, limit, offset) {
            None => {},
            Some((header, size)) => {
                if size >= header && header >= 8 && offset + size <= limit {
                    assert(b.subrange(offset + 4, offset + 8) =~= c.subrange(offset + 4, offset + 8));
                    assert(b.subrange(offset + header, offset + size) =~= c.subrange(
                        offset + header,
                        offset + size,
                    ));
                    lemma_walk_reads_below_limit(b, c, limit, offset + size);
                }
            },
        }
    }
}

/// Only the leading bytes are searched: an input is judged as its first
/// `HEIF_SCAN_LIMIT` bytes (all of it, when shorter) would be.
pub proof fn law_only_leading_bytes_are_searched(b: Seq<u8>)
    ensures
        spec_looks_like_heif(b) == spec_looks_like_heif(
            b.subrange(0, scan_limit(b.len() as int)),
        ),
{
    let limit = scan_limit(b.len() as int);
    let c = b.subrange(0, limit);
    assert(c.subrange(0, limit) =~= b.subrange(0, limit));
    assert(scan_limit(c.len() as int) == limit);
    lemma_walk_reads_below_limit(b, c, limit, 0);
}

fn read_be_u32(bytes: &[u8], i: usize) -> (r: u64)
    requires
        i + 4 <= bytes.len(),
    ensures
        r == be_u32_at(bytes@, i as int),
{
    (bytes[i] as u64) * 16777216 + (bytes[i + 1] as u64) * 65536 + (bytes[i + 2] as u64) * 256
        + (bytes[i + 3] as u64)
}

fn read_be_u64(bytes: &[u8], i: usize) -> (r: u64)
    requires
        i + 8 <= bytes.len(),
    ensures
        r == be_u64_at(bytes@, i as int),
{
    let high = read_be_u32(bytes, i);
    let low = read_be_u32(bytes, i + 4);
    high * 4294967296 + low
}

/// Whether `bytes[at..at + 4]` is exactly `[c0, c1, c2, c3]`.
fn four_bytes_are(bytes: &[u8], at: usize, c0: u8, c1: u8, c2: u8, c3: u8) -> (r: bool)
    requires
        at + 4 <= bytes@.len(),
    ensures
        r == (bytes@.subrange(at as int, at + 4) == seq![c0, c1, c2, c3]),
{
    let r = bytes[at] == c0 && bytes[at + 1] == c1 && bytes[at + 2] == c2 && bytes[at + 3] == c3;
    proof {
        let s = bytes@.subrange(at as int, at + 4);
        if r {
            assert(s =~= seq![c0, c1, c2, c3]);
        } else if s == seq![c0, c1, c2, c3] {
            assert(s[0] == c0 && s[1] == c1 && s[2] == c2 && s[3] == c3);
        }
    }
    r
}

/// Whether the four bytes at `at` are a HEIF brand.
fn brand_at_is_heif(bytes: &[u8], at: usize) -> (r: bool)
    requires
        at + 4 <= bytes@.len(),
    ensures
        r == is_heif_brand(bytes@.subrange(at as int, at + 4)),
{
    four_bytes_are(bytes, at, 104, 101, 105, 99) || four_bytes_are(
        bytes,
        at,
        104,
        101,
        105,
        120,
    ) || four_bytes_are(bytes, at, 104, 101, 118, 99) || four_bytes_are(
        bytes,
        at,
        104,
        101,
        118,
        120,
    ) || four_bytes_are(bytes, at, 104, 101, 105, 109) || four_bytes_are(
        bytes,
        at,
        104,
        101,
        105,
        115,
    ) || four_bytes_are(bytes, at, 104, 101, 118, 109) || four_bytes_are(
        bytes,
        at,
        104,
        101,
        118,
        115,
    ) || four_bytes_are(bytes, at, 109, 105, 102, 49) || four_bytes_are(
        bytes,
        at,
        109,
        115,
        102,
        49,
    )
}

/// Whether the `ftyp` payload `bytes[start..end]` names a HEIF brand.
fn ftyp_payload_names_heif(bytes: &[u8], start: usize, end: usize) -> (r: bool)
    requires
        start + 8 <= end <= bytes@.len(),
    ensures
        r == ftyp_names_heif(bytes@.subrange(start as int, end as int)),
{
    let ghost payload = bytes@.subrange(start as int, end as int);
    assert(payload.subrange(0, 4) =~= bytes@.subrange(start as int, start + 4));
    if brand_at_is_heif(bytes, start) {
        return true;
    }
    let mut k: usize = 0;
    while end - start - 4 * k >= 12
        invariant
            start + 8 <= end <= bytes@.len(),
            payload == bytes@.subrange(start as int, end as int),
            4 * k <= end - start,
            !is_heif_brand(payload.subrange(0, 4)),
            forall|j: int| 0 <= j < k ==> !is_heif_brand(#[trigger] compatible_brand(payload, j)),
        decreases end - start - 4 * k,
    {
        let at = start + 8 + 4 * k;
        assert(compatible_brand(payload, k as int) =~= bytes@.subrange(at as int, at + 4));
        if brand_at_is_heif(bytes, at) {
            return true;
        }
        k = k + 1;
    }
    assert forall|j: int|
        0 <= j && 12 + 4 * j <= payload.len() implies !is_heif_brand(
        #[trigger] compatible_brand(payload, j),
    ) by {
        assert(j < k);
    }
    false
}

/// Whether `bytes` is a HEIF container: its first `ftyp` box, found by
/// walking the boxes in the first 64 KiB, names a HEIF brand as its major
/// brand or as one of its compatible brands.
pub fn looks_like_heif(bytes: &[u8]) -> (r: bool)
    ensures
        r == spec_looks_like_heif(bytes@),
{
    let limit = if bytes.len() < HEIF_SCAN_LIMIT {
        bytes.len()
    } else {
        HEIF_SCAN_LIMIT
    };
    let ghost b = bytes@;
    let mut offset: usize = 0;
    while limit - offset >= 8
        invariant
            b == bytes@,
            limit == scan_limit(b.len() as int),
            limit <= bytes@.len(),
            offset <= limit,
            heif_ftyp_found(b, limit as int, 0) == heif_ftyp_found(b, limit as int, offset as int),
        decreases limit - offset,
    {
        let size32 = read_be_u32(bytes, offset);
        let header: usize;
        let box_size: usize;
        if size32 == 0 {
            header = 8;
            box_size = limit - offset;
        } else if size32 == 1 {
            if limit - offset < 16 {
                return false;
            }
            let size64 = read_be_u64(bytes, offset + 8);
            if size64 > usize::MAX as u64 {
                return false;
            }
            header = 16;
            box_size = size64 as usize;
        } else {
            header = 8;
            box_size = size32 as usize;
        }
        assert(box_extent(b, limit as int, offset as int) == Some((header as int, box_size as int)));
        if box_size < header || box_size > limit - offset {
            return false;
        }
        if four_bytes_are(bytes, offset + 4, 102, 116, 121, 112) {
            if box_size - header < 8 {
                return false;
            }
            return ftyp_payload_names_heif(bytes, offset + header, offset + box_size);
        }
        offset = offset + box_size;
    }
    false
}

/// Refuses bytes that are not a HEIF container.
pub fn ensure_heif_container(bytes: &[u8]) -> (r: Result<(), HeifError>)
    ensures
        r == if spec_looks_like_heif(bytes@) {
            Ok::<(), HeifError>(())
        } else {
            Err(HeifError::NotHeifContainer)
        },
{
    if looks_like_heif(bytes) {
        Ok(())
    } else {
        Err(HeifError::NotHeifContainer)
    }
}

/// The outcome of `checked_pixel_count` for the given dimensions.
pub open spec fn pixel_count_result(width: int, height: int) -> Result<usize, HeifError> {
    if width == 0 || height == 0 {
        Err(HeifError::EmptyImage)
    } else if width * height > usize::MAX {
        Err(HeifError::DimensionsOverflow)
    } else if width * height > MAX_DECODED_PIXELS {
        Err(HeifError::TooLarge { width: width as usize, height: height as usize })
    } else {
        Ok((width * height) as usize)
    }
}

/// The number of pixels of a `width` by `height` image, refused when a
/// dimension is zero or the image exceeds `MAX_DECODED_PIXELS`.
pub fn checked_pixel_count(width: usize, height: usize) -> (r: Result<usize, HeifError>)
    ensures
        r == pixel_count_result(width as int, height as int),
{
    if width == 0 || height == 0 {
        return Err(HeifError::EmptyImage);
    }
    let pixel_count = match width.checked_mul(height) {
        Some(n) => n,
        None => {
            return Err(HeifError::DimensionsOverflow);
        },
    };
    if pixel_count > MAX_DECODED_PIXELS {
        return Err(HeifError::TooLarge { width, height });
    }
    Ok(pixel_count)
}

/// The size guard looks at the pixel count alone: an image with nonzero
/// sides and at most `MAX_DECODED_PIXELS` pixels is accepted with exactly
/// that many pixels, however long either side is, and one with more pixels
/// (counted without overflow) is refused as too large.
pub proof fn law_pixel_limit_is_on_the_product(width: usize, height: usize)
    ensures
        0 < width && 0 < height && width * height <= MAX_DECODED_PIXELS ==> pixel_count_result(
            width as int,
            height as int,
        ) == Ok::<usize, HeifError>((width * height) as usize),
        0 < width && 0 < height && MAX_DECODED_PIXELS < width * height <= usize::MAX
            ==> pixel_count_result(width as int, height as int) == Err::<usize, HeifError>(
            HeifError::TooLarge { width, height },
        ),
{
}

/// Two images with nonzero sides and the same number of pixels get the same
/// outcome: both accepted with that count, or both refused for the same
/// kind of reason.
pub proof fn law_same_pixel_count_same_outcome(w1: usize, h1: usize, w2: usize, h2: usize)
    requires
        0 < w1 && 0 < h1 && 0 < w2 && 0 < h2,
        w1 * h1 == w2 * h2,
    ensures
        pixel_count_result(w1 as int, h1 as int) is Ok <==> pixel_count_result(
            w2 as int,
            h2 as int,
        ) is Ok,
        pixel_count_result(w1 as int, h1 as int) is Ok ==> pixel_count_result(w1 as int, h1 as int)
            == pixel_count_result(w2 as int, h2 as int),
{
}

/// Sizes of the RGBA 16-bit-float buffer that a decoded image is drawn into.
#[derive(Debug, Clone, Copy, PartialEq, Eq)]
pub struct ConversionLayout {
    /// `width * height`.
    pub pixel_count: usize,
    /// Four components per pixel.
    pub component_count: usize,
    /// Bytes in one row: four 16-bit components per pixel.
    pub bytes_per_row: usize,
    /// The width as the image buffer takes it.
    pub width: u32,
    /// The height as the image buffer takes it.
    pub height: u32,
}

/// The conversion buffer for a `width` by `height` image; refused exactly
/// when `checked_pixel_count` refuses (the later checks cannot fail once the
/// pixel count is within `MAX_DECODED_PIXELS`).
pub fn conversion_layout(width: usize, height: usize) -> (r: Result<ConversionLayout, HeifError>)
    ensures
        match pixel_count_result(width as int, height as int) {
            Err(e) => r == Err::<ConversionLayout, HeifError>(e),
            Ok(n) => r == Ok::<ConversionLayout, HeifError>(
                ConversionLayout {
                    pixel_count: n,
                    component_count: (4 * n) as usize,
                    bytes_per_row: (8 * width) as usize,
                    width: width as u32,
                    height: height as u32,
                },
            ),
        },
{
    let pixel_count = match checked_pixel_count(width, height) {
        Ok(n) => n,
        Err(e) => {
            return Err(e);
        },
    };
    assert(width <= pixel_count && height <= pixel_count) by (nonlinear_arith)
        requires
            pixel_count == width * height,
            width >= 1,
            height >= 1,
    ;
    let component_count = match pixel_count.checked_mul(4) {
        Some(n) => n,
        None => {
            return Err(HeifError::BufferSizeOverflow);
        },
    };
    let bytes_per_row = match width.checked_mul(4) {
        Some(components) => match components.checked_mul(BYTES_PER_COMPONENT) {
            Some(n) => n,
            None => {
                return Err(HeifError::RowSizeOverflow);
            },
        },
        None => {
            return Err(HeifError::RowSizeOverflow);
        },
    };
    if width > u32::MAX as usize {
        return Err(HeifError::WidthTooLarge);
    }
    if height > u32::MAX as usize {
        return Err(HeifError::HeightTooLarge);
    }
    Ok(
        ConversionLayout {
            pixel_count,
            component_count,
            bytes_per_row,
            width: width as u32,
            height: height as u32,
        },
    )
}

/// The EXIF orientation (1 to 8) that a container property declares;
/// a missing or out-of-range value means 1 (upright).
pub fn orientation_from_property(value: Option<i64>) -> (o: u16)
    ensures
        o == match value {
            Some(v) => if 1 <= v <= 8 {
                v as u16
            } else {
                1u16
            },
            None => 1u16,
        },
{
    match value {
        Some(v) => {
            if 1 <= v && v <= 8 {
                v as u16
            } else {
                1
            }
        },
        None => 1,
    }
}

/// Converts a declared dimension to `usize`, when it is not negative and fits.
fn dimension_from_property(value: Option<i64>) -> (d: Option<usize>)
    ensures
        d == match value {
            Some(v) => if 0 <= v <= usize::MAX {
                Some(v as usize)
            } else {
                None::<usize>
            },
            None => None::<usize>,
        },
{
    match value {
        Some(v) => {
            if v < 0 {
                None
            } else if (v as u64) > (usize::MAX as u64) {
                None
            } else {
                Some(v as usize)
            }
        },
        None => None,
    }
}

/// The pixel dimensions a container declares, when both are present and
/// representable.
pub fn declared_dimensions(width: Option<i64>, height: Option<i64>) -> (d: Option<(usize, usize)>)
    ensures
        d == match (width, height) {
            (Some(w), Some(h)) => if 0 <= w <= usize::MAX && 0 <= h <= usize::MAX {
                Some((w as usize, h as usize))
            } else {
                None::<(usize, usize)>
            },
            _ => None::<(usize, usize)>,
        },
{
    match (dimension_from_property(width), dimension_from_property(height)) {
        (Some(w), Some(h)) => Some((w, h)),
        _ => None,
    }
}

/// The cancellation check once the tracker has been read: superseded
/// exactly when the tracker holds another generation than `generation`.
pub fn cancel_check_at(current: usize, generation: usize) -> (r: Result<(), HeifError>)
    ensures
        r == if current == generation {
            Ok::<(), HeifError>(())
        } else {
            Err(HeifError::Cancelled)
        },
{
    if current != generation {
        Err(HeifError::Cancelled)
    } else {
        Ok(())
    }
}

/// Refuses to go on when the load that a decode belongs to has been
/// superseded: the tracker no longer holds `generation`.
pub fn check_cancel(cancel_token: &Option<(Arc<AtomicUsize>, usize)>) -> (r: Result<(), HeifError>)
    ensures
        cancel_token is None ==> r == Ok::<(), HeifError>(()),
        r is Err ==> r == Err::<(), HeifError>(HeifError::Cancelled),
{
    match cancel_token {
        Some((tracker, generation)) => {
            let current = tracker.load(std::sync::atomic::Ordering::SeqCst);
            cancel_check_at(current, *generation)
        },
        None => Ok(()),
    }
}

} // verus!
