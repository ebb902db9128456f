//! Pixel formats, and the byte order of the channels in each.
use vstd::prelude::*;

verus! {

pub const DXGI_FORMAT_R8G8B8A8_UNORM: i32 = 28;

pub const DXGI_FORMAT_R8G8B8A8_UNORM_SRGB: i32 = 29;

pub const DXGI_FORMAT_B8G8R8A8_UNORM: i32 = 87;

pub const DXGI_FORMAT_B8G8R8A8_UNORM_SRGB: i32 = 91;

/// Bytes per pixel of every format here.
pub const BPP_RGBA: usize = 4;

pub const EXSTYLE_LAYERED: i32 = 0x00080000;

pub const EXSTYLE_TRANSPARENT: i32 = 0x00000020;

pub const EXSTYLE_NOREDIRECTIONBITMAP: i32 = 0x00200000;

/// The order of the four channels in a pixel.
#[derive(Debug, Clone, Copy, PartialEq, Eq, Structural)]
pub enum PixelFormat {
    R8G8B8A8,
    B8G8R8A8,
    Unknown,
}

impl PixelFormat {
    /// The format that a code stands for.
    pub open spec fn of_code(code: i32) -> PixelFormat {
        if code == 28 || code == 29 {
            PixelFormat::R8G8B8A8
        } else if code == 87 || code == 91 {
            PixelFormat::B8G8R8A8
        } else {
            PixelFormat::Unknown
        }
    }

    pub fn from_dxgi(code: i32) -> (format: Self)
        ensures
            format == PixelFormat::of_code(code),
    {
        if code == DXGI_FORMAT_R8G8B8A8_UNORM || code == DXGI_FORMAT_R8G8B8A8_UNORM_SRGB {
            PixelFormat::R8G8B8A8
        } else if code == DXGI_FORMAT_B8G8R8A8_UNORM || code == DXGI_FORMAT_B8G8R8A8_UNORM_SRGB {
            PixelFormat::B8G8R8A8
        } else {
            PixelFormat::Unknown
        }
    }

    /// Where the red byte stands in a pixel; an unknown format is read as red first.
    pub open spec fn red_at(self) -> usize {
        if self == PixelFormat::B8G8R8A8 {
            2
        } else {
            0
        }
    }

    /// Where the blue byte stands in a pixel; an unknown format is read as red first.
    pub open spec fn blue_at(self) -> usize {
        if self == PixelFormat::B8G8R8A8 {
            0
        } else {
            2
        }
    }

    pub fn channel_offset_r(self) -> (at: usize)
        ensures
            at == self.red_at(),
    {
        match self {
            PixelFormat::R8G8B8A8 => 0,
            PixelFormat::B8G8R8A8 => 2,
            PixelFormat::Unknown => 0,
        }
    }

    pub fn channel_offset_b(self) -> (at: usize)
        ensures
            at == self.blue_at(),
    {
        match self {
            PixelFormat::R8G8B8A8 => 2,
            PixelFormat::B8G8R8A8 => 0,
            PixelFormat::Unknown => 2,
        }
    }

    pub fn channel_offset_g(self) -> (at: usize)
        ensures
            at == 1,
    {
        1
    }

    pub fn channel_offset_a(self) -> (at: usize)
        ensures
            at == 3,
    {
        3
    }

    /// Which byte of a source pixel lands at byte `at` of the converted pixel: red and blue
    /// change places where red came first, and every other format is taken as it is.
    pub open spec fn bgra_source(self, at: int) -> int {
        if self == PixelFormat::R8G8B8A8 && at == 0 {
            2
        } else if self == PixelFormat::R8G8B8A8 && at == 2 {
            0
        } else {
            at
        }
    }
}

/// The `channel` bytes of the first `x` pixels of the row that starts at `row_off`, without
/// the pixels that do not lie wholly in `src`.
pub open spec fn row_channel(src: Seq<u8>, row_off: int, x: int, channel: int) -> Seq<u8>
    decreases x,
{
    if x <= 0 {
        Seq::empty()
    } else {
        let before = row_channel(src, row_off, x - 1, channel);
        let px = row_off + (x - 1) * 4;
        if px + 4 <= src.len() {
            before.push(src[px + channel])
        } else {
            before
        }
    }
}

/// The `channel` bytes of the first `y` rows of an image, row after row.
pub open spec fn image_channel(
    src: Seq<u8>,
    pitch: int,
    width: int,
    y: int,
    channel: int,
) -> Seq<u8>
    decreases y,
{
    if y <= 0 {
        Seq::empty()
    } else {
        image_channel(src, pitch, width, y - 1, channel) + row_channel(
            src,
            (y - 1) * pitch,
            width,
            channel,
        )
    }
}

/// Every pixel that lies in `src` has a byte at `channel`.
pub open spec fn channel_readable(
    src: Seq<u8>,
    pitch: int,
    width: int,
    height: int,
    channel: int,
) -> bool {
    forall|x: int, y: int|
        0 <= x < width && 0 <= y < height && (#[trigger] pixel_at(pitch, x, y)) + 4 <= src.len()
            ==> pixel_at(pitch, x, y) + channel < src.len()
}

/// Where pixel (x, y) starts in rows of `pitch` bytes.
pub open spec fn pixel_at(pitch: int, x: int, y: int) -> int {
    y * pitch + x * 4
}

/// Picks one channel out of an image.
pub fn extract_channel_rgba(
    src: &[u8],
    src_pitch: u32,
    _src_format: PixelFormat,
    width: u32,
    height: u32,
    channel: usize,
) -> (out: Vec<u8>)
    requires
        width * height <= u32::MAX,
        (height - 1) * src_pitch <= u32::MAX,
        channel_readable(src@, src_pitch as int, width as int, height as int, channel as int),
    ensures
        out@ == image_channel(
            src@,
            src_pitch as int,
            width as int,
            height as int,
            channel as int,
        ),
{
    let mut out: Vec<u8> = Vec::with_capacity((width * height) as usize);
    let mut y: u32 = 0;
    while y < height
        invariant
            y <= height,
            (height - 1) * src_pitch <= u32::MAX,
            channel_readable(src@, src_pitch as int, width as int, height as int, channel as int),
            out@ == image_channel(
                src@,
                src_pitch as int,
                width as int,
                y as int,
                channel as int,
            ),
        decreases height - y,
    {
        assert(y * src_pitch <= (height - 1) * src_pitch) by (nonlinear_arith)
            requires
                y <= height - 1,
        ;
        let row_off: usize = (y * src_pitch) as usize;
        let ghost before = out@;
        let mut x: u32 = 0;
        while x < width
            invariant
                x <= width,
                y < height,
                row_off == y * src_pitch,
                row_off <= u32::MAX,
                channel_readable(
                    src@,
                    src_pitch as int,
                    width as int,
                    height as int,
                    channel as int,
                ),
                out@ == before + row_channel(src@, row_off as int, x as int, channel as int),
            decreases width - x,
        {
            let px: u64 = row_off as u64 + (x as u64) * 4;
            assert(px == pixel_at(src_pitch as int, x as int, y as int));
            if px + 4 <= src.len() as u64 {
                out.push(src[px as usize + channel]);
            }
            x += 1;
        }
        y += 1;
    }
    out
}

/// How many pixels a row conversion reaches.
pub open spec fn convertible(src_len: int, dst_len: int, pixel_count: int) -> int {
    let whole = if src_len <= dst_len {
        src_len / 4
    } else {
        dst_len / 4
    };
    if pixel_count <= whole {
        pixel_count
    } else {
        whole
    }
}

/// What `dst` holds once `pixels` pixels of `src` have been converted into it.
pub open spec fn bgra_row(src: Seq<u8>, format: PixelFormat, dst: Seq<u8>, pixels: int) -> Seq<
    u8,
> {
    Seq::new(
        dst.len(),
        |i: int|
            if i < pixels * 4 {
                src[i - i % 4 + format.bgra_source(i % 4)]
            } else {
                dst[i]
            },
    )
}

/// Writes a row of pixels as blue, green, red, alpha. It stops at the first pixel that does
/// not lie wholly in both rows.
pub fn convert_row_to_bgra(
    src: &[u8],
    src_format: PixelFormat,
    dst: &mut [u8],
    pixel_count: usize,
)
    ensures
        final(dst)@ == bgra_row(
            src@,
            src_format,
            old(dst)@,
            convertible(src@.len() as int, old(dst)@.len() as int, pixel_count as int),
        ),
{
    let ghost before = dst@;
    let mut i: usize = 0;
    while i < pixel_count
        invariant_except_break
            i <= pixel_count,
        invariant
            i <= convertible(src@.len() as int, before.len() as int, pixel_count as int),
            dst@ == bgra_row(src@, src_format, before, i as int),
        ensures
            i == convertible(src@.len() as int, before.len() as int, pixel_count as int),
        decreases pixel_count - i,
    {
        assert(i * 4 <= src.len() && i * 4 <= dst.len());
        let at: usize = i * BPP_RGBA;
        if src.len() - at < BPP_RGBA || dst.len() - at < BPP_RGBA {
            break;
        }
        let (blue, green, red, alpha): (u8, u8, u8, u8) = match src_format {
            PixelFormat::R8G8B8A8 => (src[at + 2], src[at + 1], src[at], src[at + 3]),
            PixelFormat::B8G8R8A8 => (src[at], src[at + 1], src[at + 2], src[at + 3]),
            PixelFormat::Unknown => (src[at], src[at + 1], src[at + 2], src[at + 3]),
        };
        dst[at] = blue;
        dst[at + 1] = green;
        dst[at + 2] = red;
        dst[at + 3] = alpha;
        i += 1;
    }
}

/// Where every pixel lies in `src`, the result holds one byte per pixel, row after row.
pub proof fn whole_row_channel(src: Seq<u8>, row_off: int, x: int, channel: int)
    requires
        0 <= x,
        0 <= row_off,
        row_off + x * 4 <= src.len(),
    ensures
        row_channel(src, row_off, x, channel).len() == x,
        forall|i: int|
            0 <= i < x ==> row_channel(src, row_off, x, channel)[i] == src[row_off + i * 4
                + channel],
    decreases x,
{
    if x > 0 {
        whole_row_channel(src, row_off, x - 1, channel);
    }
}

/// Where every pixel lies in `src`, [`extract_channel_rgba`] gives one byte per pixel, and the
/// byte of pixel (x, y) stands at `y * width + x`.
pub proof fn extraction_is_exact(
    src: Seq<u8>,
    pitch: int,
    width: int,
    height: int,
    channel: int,
    x: int,
    y: int,
)
    requires
        0 <= x < width,
        0 <= y < height,
        0 <= pitch,
        forall|row: int| 0 <= row < height ==> #[trigger] (row * pitch) + width * 4 <= src.len(),
    ensures
        image_channel(src, pitch, width, height, channel).len() == width * height,
        image_channel(src, pitch, width, height, channel)[y * width + x] == src[pixel_at(
            pitch,
            x,
            y,
        ) + channel],
    decreases height,
{
    let last = height - 1;
    assert(last * pitch + width * 4 <= src.len());
    assert(0 <= last * pitch) by (nonlinear_arith)
        requires
            0 <= last,
            0 <= pitch,
    ;
    whole_row_channel(src, last * pitch, width, channel);
    assert(width * height == width * last + width) by (nonlinear_arith)
        requires
            last == height - 1,
    ;
    if last > 0 {
        let row = if y < last {
            y
        } else {
            0
        };
        extraction_is_exact(src, pitch, width, last, channel, x, row);
        assert(0 <= y * width + x < width * last || y == last) by (nonlinear_arith)
            requires
                0 <= x < width,
                0 <= y <= last,
        ;
    } else {
        assert(image_channel(src, pitch, width, 0, channel) =~= Seq::empty());
        assert(width * last == 0) by (nonlinear_arith)
            requires
                last == 0,
        ;
    }
    assert(y == last ==> y * width == width * last) by (nonlinear_arith);
}

/// Converting a row that starts with red twice gives the row back.
pub proof fn converting_twice_restores(src: Seq<u8>, first: Seq<u8>, second: Seq<u8>)
    requires
        src.len() == first.len(),
        src.len() == second.len(),
        src.len() % 4 == 0,
    ensures
        ({
            let pixels = convertible(src.len() as int, src.len() as int, (src.len() / 4) as int);
            bgra_row(
                bgra_row(src, PixelFormat::R8G8B8A8, first, pixels),
                PixelFormat::R8G8B8A8,
                second,
                pixels,
            ) == src
        }),
{
    let pixels = src.len() / 4;
    let once = bgra_row(src, PixelFormat::R8G8B8A8, first, pixels as int);
    let twice = bgra_row(once, PixelFormat::R8G8B8A8, second, pixels as int);
    assert forall|i: int| 0 <= i < src.len() implies twice[i] == src[i] by {
        let j = i - i % 4 + PixelFormat::R8G8B8A8.bgra_source(i % 4);
        assert(0 <= j < src.len() && j - j % 4 == i - i % 4);
    }
    assert(twice =~= src);
}

/// Green and alpha keep their places, and an already blue-first row is copied as it is.
pub proof fn blue_first_row_is_copied(src: Seq<u8>, dst: Seq<u8>)
    requires
        src.len() == dst.len(),
        src.len() % 4 == 0,
    ensures
        bgra_row(
            src,
            PixelFormat::B8G8R8A8,
            dst,
            convertible(src.len() as int, dst.len() as int, (src.len() / 4) as int),
        ) == src,
{
    assert(bgra_row(src, PixelFormat::B8G8R8A8, dst, (src.len() / 4) as int) =~= src);
}

/// A converted pixel is blue, green, red, alpha: where red came first, red and blue change places;
/// any other format is taken as it is. What is not converted stays.
pub proof fn converted_pixels_are_blue_first(
    src: Seq<u8>,
    format: PixelFormat,
    dst: Seq<u8>,
    pixel_count: int,
    i: int,
)
    requires
        0 <= i,
        0 <= pixel_count,
    ensures
        ({
            let row = bgra_row(
                src,
                format,
                dst,
                convertible(src.len() as int, dst.len() as int, pixel_count),
            );
            &&& row.len() == dst.len()
            &&& i < pixel_count && i * 4 + 4 <= src.len() && i * 4 + 4 <= dst.len() ==> {
                &&& row[i * 4 + 1] == src[i * 4 + 1]
                &&& row[i * 4 + 3] == src[i * 4 + 3]
                &&& format == PixelFormat::R8G8B8A8 ==> row[i * 4] == src[i * 4 + 2] && row[i * 4
                    + 2] == src[i * 4]
                &&& format != PixelFormat::R8G8B8A8 ==> row[i * 4] == src[i * 4] && row[i * 4 + 2]
                    == src[i * 4 + 2]
            }
            &&& i < dst.len() && (i / 4 >= pixel_count || i / 4 * 4 + 4 > src.len() || i / 4 * 4 + 4
                > dst.len()) ==> row[i] == dst[i]
        }),
{
}

/// Red and blue stand where the name of the format says.
pub proof fn channels_stand_where_the_format_says(format: PixelFormat)
    ensures
        format == PixelFormat::R8G8B8A8 ==> format.red_at() == 0 && format.blue_at() == 2,
        format == PixelFormat::B8G8R8A8 ==> format.red_at() == 2 && format.blue_at() == 0,
        format.red_at() + format.blue_at() == 2,
        format != PixelFormat::Unknown ==> format.bgra_source(2) == format.red_at()
            && format.bgra_source(0) == format.blue_at(),
        format.bgra_source(1) == 1 && format.bgra_source(3) == 3,
{
}

/// A row that is cut short gives the channel bytes of the pixels that lie in it wholly.
pub proof fn cut_rows_give_their_whole_pixels(
    src: Seq<u8>,
    row_off: int,
    x: int,
    whole: int,
    channel: int,
)
    requires
        0 <= whole <= x,
        row_off + whole * 4 + 4 > src.len(),
    ensures
        row_channel(src, row_off, x, channel) == row_channel(src, row_off, whole, channel),
    decreases x - whole,
{
    if whole < x {
        cut_rows_give_their_whole_pixels(src, row_off, x - 1, whole, channel);
    }
}

/// Four codes are known, two for each order of the channels; every other is unknown.
pub proof fn four_codes_are_known(code: i32)
    ensures
        PixelFormat::of_code(code) == PixelFormat::R8G8B8A8 <==> code == DXGI_FORMAT_R8G8B8A8_UNORM
            || code == DXGI_FORMAT_R8G8B8A8_UNORM_SRGB,
        PixelFormat::of_code(code) == PixelFormat::B8G8R8A8 <==> code == DXGI_FORMAT_B8G8R8A8_UNORM
            || code == DXGI_FORMAT_B8G8R8A8_UNORM_SRGB,
{
}

} // verus!
