use spout_transparent::dx::bmp::{center_pixel, encode_bmp, first_pixel, pixel_region};
use spout_transparent::dx::constants::{
    convert_row_to_bgra, extract_channel_rgba, PixelFormat, DXGI_FORMAT_B8G8R8A8_UNORM,
    DXGI_FORMAT_B8G8R8A8_UNORM_SRGB, DXGI_FORMAT_R8G8B8A8_UNORM, DXGI_FORMAT_R8G8B8A8_UNORM_SRGB,
};
use spout_transparent::dx::staging::{AlphaReadback, MapOutcome};
use spout_transparent::dx::{
    check_dimensions, compile_flags, invalid_argument, missing_object, next_driver, DriverKind,
    DxError, E_INVALIDARG, E_UNEXPECTED,
};
use spout_transparent::window_style::{
    composed_style, look_through_style, passthrough_style, taskbar_hidden_style,
    transparency_style,
};

#[test]
fn formats_have_their_channels() {
    assert_eq!(PixelFormat::from_dxgi(DXGI_FORMAT_R8G8B8A8_UNORM), PixelFormat::R8G8B8A8);
    assert_eq!(
        PixelFormat::from_dxgi(DXGI_FORMAT_R8G8B8A8_UNORM_SRGB),
        PixelFormat::R8G8B8A8
    );
    assert_eq!(PixelFormat::from_dxgi(DXGI_FORMAT_B8G8R8A8_UNORM), PixelFormat::B8G8R8A8);
    assert_eq!(
        PixelFormat::from_dxgi(DXGI_FORMAT_B8G8R8A8_UNORM_SRGB),
        PixelFormat::B8G8R8A8
    );
    assert_eq!(PixelFormat::from_dxgi(2), PixelFormat::Unknown);
    assert_eq!(PixelFormat::R8G8B8A8.channel_offset_r(), 0);
    assert_eq!(PixelFormat::R8G8B8A8.channel_offset_b(), 2);
    assert_eq!(PixelFormat::B8G8R8A8.channel_offset_r(), 2);
    assert_eq!(PixelFormat::B8G8R8A8.channel_offset_b(), 0);
    assert_eq!(PixelFormat::B8G8R8A8.channel_offset_g(), 1);
    assert_eq!(PixelFormat::B8G8R8A8.channel_offset_a(), 3);
}

#[test]
fn channel_skips_the_gap_between_rows() {
    let pixels = [1, 2, 3, 4, 5, 6, 7, 8, 0, 0, 11, 12, 13, 14, 15, 16, 17, 18];
    assert_eq!(extract_channel_rgba(&pixels, 10, PixelFormat::R8G8B8A8, 2, 2, 3), [4, 8, 14, 18]);
    assert_eq!(extract_channel_rgba(&pixels, 10, PixelFormat::R8G8B8A8, 2, 2, 0), [1, 5, 11, 15]);
    assert_eq!(extract_channel_rgba(&[], 10, PixelFormat::Unknown, 0, 0, 0).len(), 0);
}

#[test]
fn rows_are_converted_to_blue_first() {
    let row = [1, 2, 3, 4, 5, 6, 7, 8];
    let mut out = [0; 8];
    convert_row_to_bgra(&row, PixelFormat::R8G8B8A8, &mut out, 2);
    assert_eq!(out, [3, 2, 1, 4, 7, 6, 5, 8]);
    convert_row_to_bgra(&row, PixelFormat::B8G8R8A8, &mut out, 2);
    assert_eq!(out, row);
}

#[test]
fn conversion_stops_at_the_shorter_row() {
    let mut out = [9; 7];
    convert_row_to_bgra(&[1, 2, 3, 4, 5, 6, 7, 8], PixelFormat::R8G8B8A8, &mut out, 2);
    assert_eq!(out, [3, 2, 1, 4, 9, 9, 9]);
}

#[test]
fn bitmap_stands_on_its_head() {
    let pixels = [1, 2, 3, 4, 0, 0, 5, 6, 7, 8];
    let file = encode_bmp(&pixels, 6, 1, 2);
    assert_eq!(file.len(), 62);
    assert_eq!(&file[0..2], b"BM");
    assert_eq!(&file[2..6], &62u32.to_le_bytes());
    assert_eq!(&file[10..14], &54u32.to_le_bytes());
    assert_eq!(&file[14..18], &40u32.to_le_bytes());
    assert_eq!(&file[18..22], &1u32.to_le_bytes());
    assert_eq!(&file[22..26], &2u32.to_le_bytes());
    assert_eq!(&file[26..30], &[1, 0, 32, 0]);
    assert_eq!(&file[34..38], &8u32.to_le_bytes());
    assert_eq!(&file[38..46], &[0x13, 0x0B, 0, 0, 0x13, 0x0B, 0, 0]);
    assert_eq!(&file[54..], &[5, 6, 7, 8, 1, 2, 3, 4]);
}

#[test]
fn samples_come_from_one_pixel() {
    let region = pixel_region(3, 4);
    assert_eq!((region.left, region.right), (3, 4));
    assert_eq!((region.top, region.bottom), (4, 5));
    assert_eq!((region.front, region.back), (0, 1));
    assert_eq!(center_pixel(641, 480), (320, 240));
    let sample = first_pixel(&[10, 20, 30, 40, 50]);
    assert_eq!((sample.blue, sample.green, sample.red, sample.alpha), (10, 20, 30, 40));
}

#[test]
fn ring_takes_turns() {
    let mut ring = AlphaReadback::new(2, 2).unwrap();
    let mut alpha = vec![9, 9, 9];
    assert_eq!(ring.try_read(MapOutcome::StillDrawing, &mut alpha), Ok(false));
    assert_eq!(ring.next_slot(), Some(0));
    assert_eq!(ring.enqueue_extract(Ok(())), Ok(true));
    assert_eq!(ring.next_slot(), Some(1));
    assert_eq!(ring.enqueue_extract(Ok(())), Ok(true));
    assert_eq!(ring.next_slot(), None);
    assert_eq!(ring.enqueue_extract(Ok(())), Ok(false));
    assert_eq!(ring.oldest_slot(), Some(0));

    assert_eq!(ring.try_read(MapOutcome::StillDrawing, &mut alpha), Ok(false));
    assert_eq!(alpha, [9, 9, 9]);
    let rows = [1, 2, 0, 3, 4];
    assert_eq!(
        ring.try_read(MapOutcome::Mapped { rows: &rows, pitch: 3 }, &mut alpha),
        Ok(true)
    );
    assert_eq!(alpha, [1, 2, 3, 4]);
    assert_eq!(ring.oldest_slot(), Some(1));
    assert_eq!(ring.next_slot(), Some(0));

    let broken = DxError { hresult: -5 };
    assert_eq!(ring.try_read(MapOutcome::Failed(broken), &mut alpha), Err(broken));
    assert_eq!(ring.oldest_slot(), None);
    assert_eq!(ring.enqueue_extract(Err(broken)), Err(broken));
    assert_eq!(ring.oldest_slot(), None);
    assert_eq!((ring.width(), ring.height()), (2, 2));
}

#[test]
fn images_without_extent_are_refused() {
    assert_eq!(AlphaReadback::new(0, 5).err(), Some(invalid_argument()));
    assert_eq!(AlphaReadback::new(5, 0).err(), Some(invalid_argument()));
    assert_eq!(check_dimensions(0, 1), Err(DxError { hresult: E_INVALIDARG }));
    assert_eq!(check_dimensions(1, 1), Ok(()));
    assert_eq!(missing_object().hresult, E_UNEXPECTED);
    assert_eq!(E_INVALIDARG, 0x8007_0057u32 as i32);
    assert_eq!(E_UNEXPECTED, 0x8000_FFFFu32 as i32);
}

#[test]
fn software_follows_hardware() {
    assert_eq!(next_driver(None), Some(DriverKind::Hardware));
    assert_eq!(next_driver(Some(DriverKind::Hardware)), Some(DriverKind::Warp));
    assert_eq!(next_driver(Some(DriverKind::Warp)), None);
    assert_eq!(compile_flags(false), 0);
    assert_eq!(compile_flags(true), 0x2001);
}

#[test]
fn styles_change_their_bits() {
    assert_eq!(passthrough_style(1), 0x0008_0021);
    assert_eq!(transparency_style(0x0008_0021, true), 0x0008_0001);
    assert_eq!(transparency_style(0x0008_0001, false), 0x0008_0021);
    assert_eq!(look_through_style(1), 0x21);
    assert_eq!(composed_style(1), 0x0020_0001);
    assert_eq!(taskbar_hidden_style(0x0004_0001), 0x81);
}
