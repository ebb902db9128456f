//! Diagnostic captures: bitmap files and single-pixel samples of mapped textures.
use vstd::prelude::*;
use vstd::slice::slice_subrange;

use crate::bytes;

verus! {

/// Bytes in front of the pixels of a bitmap file.
pub const BMP_HEADER_BYTES: usize = 54;

/// The file header and the info header of a bitmap of 32-bit pixels, stored bottom up at
/// 2835 pixels per metre.
#[verifier::opaque]
pub open spec fn bmp_header(width: int, height: int) -> Seq<u8> {
    let image = width * height * 4;
    seq![0x42u8, 0x4Du8] + bytes::le32(54 + image) + bytes::le32(0) + bytes::le32(54)
        + bytes::le32(40) + bytes::le32(width) + bytes::le32(height) + seq![1u8, 0u8, 32u8, 0u8]
        + bytes::le32(0) + bytes::le32(image) + bytes::le32(2835) + bytes::le32(2835)
        + bytes::le32(0) + bytes::le32(0)
}

/// The last `count` rows of an image, the last one first.
pub open spec fn bottom_rows(
    pixels: Seq<u8>,
    pitch: int,
    width: int,
    height: int,
    count: int,
) -> Seq<u8>
    decreases count,
{
    if count <= 0 {
        Seq::empty()
    } else {
        let start = (height - count) * pitch;
        bottom_rows(pixels, pitch, width, height, count - 1) + pixels.subrange(
            start,
            start + width * 4,
        )
    }
}

/// Every row of the image lies in `pixels`.
pub open spec fn rows_fit(pixels: Seq<u8>, pitch: int, width: int, height: int) -> bool {
    height > 0 ==> (height - 1) * pitch + width * 4 <= pixels.len()
}

/// The bitmap file that shows an image of 32-bit pixels.
pub open spec fn bmp_file(pixels: Seq<u8>, pitch: int, width: int, height: int) -> Seq<u8> {
    bmp_header(width, height) + bottom_rows(pixels, pitch, width, height, height)
}

/// Encodes the rows of a mapped texture as a bitmap file. Rows start `pitch` bytes apart in
/// `pixels`. A pixel has four bytes, so no row of the file needs padding.
pub fn encode_bmp(pixels: &[u8], pitch: u32, width: u32, height: u32) -> (file: Vec<u8>)
    requires
        rows_fit(pixels@, pitch as int, width as int, height as int),
        54 + width * height * 4 <= usize::MAX,
    ensures
        file@ == bmp_file(pixels@, pitch as int, width as int, height as int),
{
    let w: usize = width as usize;
    let h: usize = height as usize;
    assert(0 <= w * h) by (nonlinear_arith);
    let image_bytes: usize = w * h * 4;
    let mut file: Vec<u8> = Vec::with_capacity(BMP_HEADER_BYTES + image_bytes);
    file.push(0x42);
    file.push(0x4D);
    bytes::push_le32(&mut file, BMP_HEADER_BYTES + image_bytes);
    bytes::push_le32(&mut file, 0);
    bytes::push_le32(&mut file, BMP_HEADER_BYTES);
    bytes::push_le32(&mut file, 40);
    bytes::push_le32(&mut file, w);
    bytes::push_le32(&mut file, h);
    file.push(1);
    file.push(0);
    file.push(32);
    file.push(0);
    bytes::push_le32(&mut file, 0);
    bytes::push_le32(&mut file, image_bytes);
    bytes::push_le32(&mut file, 2835);
    bytes::push_le32(&mut file, 2835);
    bytes::push_le32(&mut file, 0);
    bytes::push_le32(&mut file, 0);
    assert(file@ =~= bmp_header(width as int, height as int)) by {
        reveal(bmp_header);
    }
    let mut count: usize = 0;
    while count < h
        invariant
            count <= h,
            w == width,
            h == height,
            rows_fit(pixels@, pitch as int, width as int, height as int),
            file@ == bmp_header(width as int, height as int) + bottom_rows(
                pixels@,
                pitch as int,
                width as int,
                height as int,
                count as int,
            ),
        decreases h - count,
    {
        let y: usize = h - 1 - count;
        assert(0 <= y * pitch <= (height - 1) * pitch) by (nonlinear_arith)
            requires
                0 <= y <= height - 1,
                0 <= pitch,
        ;
        assert(pixels@.len() == pixels.len());
        let start: usize = y * pitch as usize;
        let row = slice_subrange(pixels, start, start + w * 4);
        file.extend_from_slice(row);
        count += 1;
    }
    file
}

/// A box of one pixel in a texture.
#[derive(Debug, Clone, Copy, PartialEq, Eq, Structural)]
pub struct PixelRegion {
    pub left: u32,
    pub top: u32,
    pub front: u32,
    pub right: u32,
    pub bottom: u32,
    pub back: u32,
}

/// The box that holds pixel (x, y) and nothing else.
pub fn pixel_region(x: u32, y: u32) -> (region: PixelRegion)
    requires
        x < u32::MAX,
        y < u32::MAX,
    ensures
        region.left == x,
        region.top == y,
        region.front == 0,
        region.right == x + 1,
        region.bottom == y + 1,
        region.back == 1,
{
    PixelRegion { left: x, top: y, front: 0, right: x + 1, bottom: y + 1, back: 1 }
}

/// The middle of an extent.
pub open spec fn middle(extent: u32) -> u32 {
    extent / 2
}

/// The pixel in the middle of a texture, which is the one that gets sampled.
pub fn center_pixel(width: u32, height: u32) -> (at: (u32, u32))
    ensures
        at == (middle(width), middle(height)),
        width > 0 && height > 0 ==> at.0 < width && at.1 < height,
{
    (width / 2, height / 2)
}

/// One pixel, as blue, green, red and alpha.
#[derive(Debug, Clone, Copy, PartialEq, Eq, Structural)]
pub struct BgraSample {
    pub blue: u8,
    pub green: u8,
    pub red: u8,
    pub alpha: u8,
}

/// Reads the first pixel of a mapped texture.
pub fn first_pixel(mapped: &[u8]) -> (sample: BgraSample)
    requires
        mapped@.len() >= 4,
    ensures
        sample.blue == mapped@[0],
        sample.green == mapped@[1],
        sample.red == mapped@[2],
        sample.alpha == mapped@[3],
{
    BgraSample { blue: mapped[0], green: mapped[1], red: mapped[2], alpha: mapped[3] }
}

proof fn bottom_rows_hold_every_pixel(
    pixels: Seq<u8>,
    pitch: int,
    width: int,
    height: int,
    count: int,
    at: int,
    y: int,
)
    requires
        0 <= width,
        0 <= pitch,
        0 <= count <= height,
        rows_fit(pixels, pitch, width, height),
        height - count <= y < height ==> 0 <= at < width * 4,
    ensures
        bottom_rows(pixels, pitch, width, height, count).len() == count * (width * 4),
        height - count <= y < height ==> bottom_rows(pixels, pitch, width, height, count)[(height
            - 1 - y) * (width * 4) + at] == pixels[y * pitch + at],
    decreases count,
{
    if count > 0 {
        bottom_rows_hold_every_pixel(pixels, pitch, width, height, count - 1, at, y);
        let row = height - count;
        assert(0 <= row * pitch <= (height - 1) * pitch) by (nonlinear_arith)
            requires
                0 <= row <= height - 1,
                0 <= pitch,
        ;
        assert(count * (width * 4) == (count - 1) * (width * 4) + width * 4) by (nonlinear_arith);
        if row < y < height {
            assert(0 <= (height - 1 - y) * (width * 4) + at < (count - 1) * (width * 4))
                by (nonlinear_arith)
                requires
                    height - 1 - y < count - 1,
                    y < height,
                    0 <= at < width * 4,
            ;
        }
    } else {
        assert(count * (width * 4) == 0) by (nonlinear_arith)
            requires
                count == 0,
        ;
    }
}

/// The header has the length that it states.
pub proof fn bmp_header_length(width: int, height: int)
    ensures
        bmp_header(width, height).len() == BMP_HEADER_BYTES,
{
    reveal(bmp_header);
}

/// A bitmap file has four bytes for each pixel behind its header, and byte `channel` of pixel
/// (x, y) stands where a reader of bottom-up rows looks for it.
pub proof fn bmp_file_shows_the_image(
    pixels: Seq<u8>,
    pitch: int,
    width: int,
    height: int,
    x: int,
    y: int,
    channel: int,
)
    requires
        0 <= pitch,
        0 <= x < width,
        0 <= y < height,
        0 <= channel < 4,
        rows_fit(pixels, pitch, width, height),
    ensures
        bmp_file(pixels, pitch, width, height).len() == 54 + width * height * 4,
        bmp_file(pixels, pitch, width, height)[54 + (height - 1 - y) * (width * 4) + x * 4
            + channel] == pixels[y * pitch + x * 4 + channel],
{
    bmp_header_length(width, height);
    bottom_rows_hold_every_pixel(pixels, pitch, width, height, height, x * 4 + channel, y);
    assert(height * (width * 4) == width * height * 4) by (nonlinear_arith);
    let at = x * 4 + channel;
    assert(0 <= (height - 1 - y) * (width * 4) + at < height * (width * 4)) by (nonlinear_arith)
        requires
            0 <= height - 1 - y,
            0 <= y,
            0 <= at < width * 4,
    ;
}

/// Below four gigabytes the header says how long the file is, where its pixels start, and how
/// wide and high the image is.
pub proof fn bmp_header_is_truthful(pixels: Seq<u8>, pitch: int, width: int, height: int)
    requires
        0 <= pitch,
        0 <= width <= u32::MAX,
        0 <= height <= u32::MAX,
        54 + width * height * 4 <= u32::MAX,
        rows_fit(pixels, pitch, width, height),
    ensures
        ({
            let file = bmp_file(pixels, pitch, width, height);
            &&& bytes::from_le32(file.subrange(2, 6)) == file.len()
            &&& bytes::from_le32(file.subrange(10, 14)) == 54
            &&& bytes::from_le32(file.subrange(18, 22)) == width
            &&& bytes::from_le32(file.subrange(22, 26)) == height
            &&& bytes::from_le32(file.subrange(34, 38)) == file.len() - 54
        }),
{
    let file = bmp_file(pixels, pitch, width, height);
    let image = width * height * 4;
    assert(0 <= width * height) by (nonlinear_arith)
        requires
            0 <= width,
            0 <= height,
    ;
    bottom_rows_hold_every_pixel(pixels, pitch, width, height, height, 0, -1);
    assert(height * (width * 4) == width * height * 4) by (nonlinear_arith);
    bmp_header_length(width, height);
    assert(file.len() == 54 + image);
    let header = bmp_header(width, height);
    assert forall|i: int, j: int| 0 <= i <= j <= 54 implies #[trigger] file.subrange(i, j)
        == header.subrange(i, j) by {
        assert(file.subrange(i, j) =~= header.subrange(i, j));
    }
    reveal(bmp_header);
    assert(header.subrange(2, 6) =~= bytes::le32(54 + image));
    assert(header.subrange(10, 14) =~= bytes::le32(54));
    assert(header.subrange(18, 22) =~= bytes::le32(width));
    assert(header.subrange(22, 26) =~= bytes::le32(height));
    assert(header.subrange(34, 38) =~= bytes::le32(image));
    bytes::le32_round_trips(54 + image);
    bytes::le32_round_trips(54);
    bytes::le32_round_trips(width);
    bytes::le32_round_trips(height);
    bytes::le32_round_trips(image);
}

/// The header announces a bitmap of one plane of uncompressed 32-bit pixels, under a header of 40
/// bytes.
pub proof fn bmp_header_announces_plain_pixels(width: int, height: int)
    ensures
        ({
            let header = bmp_header(width, height);
            &&& header[0] == 0x42 && header[1] == 0x4D
            &&& bytes::from_le32(header.subrange(6, 10)) == 0
            &&& bytes::from_le32(header.subrange(14, 18)) == 40
            &&& header[26] == 1 && header[27] == 0
            &&& header[28] == 32 && header[29] == 0
            &&& bytes::from_le32(header.subrange(30, 34)) == 0
            &&& bytes::from_le32(header.subrange(38, 42)) == 2835
            &&& bytes::from_le32(header.subrange(42, 46)) == 2835
            &&& bytes::from_le32(header.subrange(46, 50)) == 0
            &&& bytes::from_le32(header.subrange(50, 54)) == 0
        }),
{
    reveal(bmp_header);
    let header = bmp_header(width, height);
    assert(header.subrange(6, 10) =~= bytes::le32(0));
    assert(header.subrange(14, 18) =~= bytes::le32(40));
    assert(header.subrange(30, 34) =~= bytes::le32(0));
    assert(header.subrange(38, 42) =~= bytes::le32(2835));
    assert(header.subrange(42, 46) =~= bytes::le32(2835));
    assert(header.subrange(46, 50) =~= bytes::le32(0));
    assert(header.subrange(50, 54) =~= bytes::le32(0));
    bytes::le32_round_trips(0);
    bytes::le32_round_trips(40);
    bytes::le32_round_trips(2835);
}

/// As many pixels lie before the middle as behind it, or one more.
pub proof fn middle_is_in_the_middle(extent: u32)
    requires
        extent > 0,
    ensures
        middle(extent) < extent,
        0 <= middle(extent) - (extent - 1 - middle(extent)) <= 1,
{
}

} // verus!
