use fbink_rs::codec::ImageFormat;
use fbink_rs::dump::{Dump, FbInkDump, RestorePlan, SunxiDump};
use fbink_rs::pixels::{PixelImage, PixelLayout, Pixels};
use fbink_rs::state::{CaptureRequest, FbInkState};
use fbink_rs::{FbInkError, FbInkRect};

fn counting_bytes(len: usize) -> Vec<u8> {
    (0..len).map(|i| (i % 251) as u8).collect()
}

/// A direct snapshot of `width` by `height` pixels at the origin, without
/// padding, whose bytes count up.
fn direct(width: u16, height: u16, bpp: u8) -> FbInkDump {
    let stride = width as usize * bpp as usize / 8;
    let data = counting_bytes(stride * height as usize);
    FbInkDump::new(data, stride, FbInkRect::new(0, 0, width, height), 1, bpp).unwrap()
}

/// An RGB image whose pixel at `(x, y)` is `(x, y, 7)`.
fn rgb_grid(width: u32, height: u32) -> PixelImage {
    let mut samples = Vec::new();
    for y in 0..height {
        for x in 0..width {
            samples.push(x as u8);
            samples.push(y as u8);
            samples.push(7);
        }
    }
    PixelImage::new(width, height, Pixels::Rgb8(samples)).unwrap()
}

/// An indirect snapshot that shows `rgb_grid(width, height)`.
fn indirect(width: u32, height: u32) -> SunxiDump {
    // Rotation code 1 asks for no turn, so the stored bitmap is the grid
    // flipped: flipping it back shows the grid.
    SunxiDump::from_decoded(1, rgb_grid(width, height).flip_vertical()).unwrap()
}

fn device_state(is_sunxi: bool, view_width: u32, view_height: u32, bpp: u32) -> FbInkState {
    FbInkState {
        user_hz: 100,
        font_name: "IBM".to_string(),
        view_width,
        view_height,
        screen_width: view_width,
        screen_height: view_height,
        scanline_stride: view_width * bpp / 8,
        bpp,
        inverted_grayscale: false,
        device_name: "Test".to_string(),
        device_codename: "test".to_string(),
        device_platform: "Mark 0".to_string(),
        device_id: 0,
        pen_fg_color: 0,
        pen_bg_color: 255,
        screen_dpi: 300,
        font_w: 8,
        font_h: 8,
        max_cols: 75,
        max_rows: 100,
        view_hori_origin: 0,
        view_vert_origin: 0,
        view_vert_offset: 0,
        fontsize_mult: 1,
        glyph_width: 8,
        glyph_height: 8,
        is_perfect_fit: true,
        is_mtk: false,
        is_sunxi,
        sunxi_has_fbdamage: false,
        sunxi_force_rota: -128,
        is_kindle_legacy: false,
        is_kobo_non_mt: false,
        unreliable_wait_for: false,
        can_wake_epdc: false,
        ntx_boot_rota: 0,
        ntx_rota_quirk: 0,
        rotation_map: [0, 1, 2, 3],
        touch_swap_axes: false,
        touch_mirror_x: false,
        touch_mirror_y: false,
        is_ntx_quirky_landscape: false,
        current_rota: 3,
        can_rotate: true,
        can_hw_invert: false,
        has_eclipse_wfm: false,
        has_color_panel: false,
        pixel_format: 0,
        can_wait_for_submission: false,
    }
}

#[test]
fn a_fresh_direct_snapshot_is_full() {
    let dump = direct(4, 3, 24);
    assert_eq!(dump.area(), FbInkRect::new(0, 0, 4, 3));
    assert_eq!(dump.clip(), dump.area());
    assert!(dump.is_full());
    assert_eq!(dump.bpp(), 24);
    assert_eq!(dump.rota(), 1);
    assert_eq!(dump.stride(), 12);
    assert_eq!(dump.size(), 36);
    assert_eq!(dump.data(), &counting_bytes(36)[..]);
}

#[test]
fn full_screen_snapshot_of_a_600_by_800_surface() {
    let state = device_state(false, 600, 800, 32);
    let request = state.screenshot_request();
    assert_eq!(request, CaptureRequest::Direct { x: 0, y: 0, width: 600, height: 800 });
    // The driver pads each scanline of this surface to 2432 bytes.
    let stride = 2432;
    let dump = FbInkDump::new(
        vec![0; stride * 800],
        stride,
        FbInkRect::new(0, 0, 600, 800),
        state.current_rota,
        state.bpp as u8,
    )
    .unwrap();
    assert_eq!(dump.area(), FbInkRect::new(0, 0, 600, 800));
    assert!(dump.is_full());
    assert_eq!(dump.bpp(), 32);
    assert_eq!(dump.rota(), 3);
    assert!(dump.stride() >= 600 * 4);
    assert_eq!(dump.data().len(), dump.stride() * 800);
    assert_eq!(dump.size(), dump.data().len());
}

#[test]
fn a_sunxi_device_is_captured_indirectly() {
    let state = device_state(true, 1404, 1872, 8);
    assert_eq!(state.screenshot_request(), CaptureRequest::Indirect { rota: 3 });
}

#[test]
fn screenshot_dimensions_are_cut_to_16_bits() {
    let state = device_state(false, 65536 + 600, 70000, 32);
    assert_eq!(
        state.screenshot_request(),
        CaptureRequest::Direct { x: 0, y: 0, width: 600, height: 4464 }
    );
}

#[test]
fn new_rejects_a_buffer_that_does_not_match_the_area() {
    let area = FbInkRect::new(0, 0, 4, 3);
    for (len, stride) in [(35, 12), (37, 12), (36, 9), (33, 11), (0, 12)] {
        match FbInkDump::new(vec![0; len], stride, area, 0, 24) {
            Err(FbInkError::InvalidArgument(msg)) => {
                assert_eq!(msg, "buffer does not match the captured area")
            }
            other => panic!("{len} bytes of stride {stride} gave {other:?}"),
        }
    }
    assert!(FbInkDump::new(vec![0; 48], 16, area, 0, 24).is_ok());
    assert!(FbInkDump::new(vec![0; 6], 2, area, 0, 4).is_ok());
    assert!(FbInkDump::new(vec![0; 3], 1, area, 0, 4).is_err());
    assert!(FbInkDump::new(vec![], 0, FbInkRect::new(0, 0, 0, 0), 0, 32).is_ok());
}

#[test]
fn crop_sets_the_clip_and_clears_is_full() {
    let mut dump = direct(10, 8, 32);
    let before = dump.data().to_vec();
    dump.crop(2, 3, 4, 5).unwrap();
    assert_eq!(dump.clip(), FbInkRect::new(2, 3, 4, 5));
    assert!(!dump.is_full());
    assert_eq!(dump.area(), FbInkRect::new(0, 0, 10, 8));
    assert_eq!(dump.data(), &before[..]);
    assert_eq!(dump.size(), before.len());
}

#[test]
fn crop_to_the_whole_area_keeps_is_full() {
    let mut dump = direct(10, 8, 32);
    dump.crop(0, 0, 10, 8).unwrap();
    assert!(dump.is_full());
    dump.crop(1, 1, 1, 1).unwrap();
    assert!(!dump.is_full());
    dump.crop_rect(FbInkRect::new(0, 0, 10, 8)).unwrap();
    assert!(dump.is_full());
    assert_eq!(dump.clip(), dump.area());
}

#[test]
fn crop_of_every_rect_inside_a_small_area() {
    let area = FbInkRect::new(5, 7, 3, 2);
    for left in 5..8u16 {
        for top in 7..9u16 {
            for width in 1..=(8 - left) {
                for height in 1..=(9 - top) {
                    let mut dump = FbInkDump::new(vec![1; 18], 9, area, 0, 24).unwrap();
                    let rect = FbInkRect::new(left, top, width, height);
                    dump.crop_rect(rect).unwrap();
                    assert_eq!(dump.clip(), rect);
                    assert_eq!(dump.is_full(), rect == area);
                }
            }
        }
    }
}

#[test]
fn crop_outside_the_area_fails_and_changes_nothing() {
    let area = FbInkRect::new(5, 7, 3, 2);
    let mut dump = FbInkDump::new(vec![1; 18], 9, area, 0, 24).unwrap();
    dump.crop(6, 7, 2, 1).unwrap();
    for rect in [
        FbInkRect::new(4, 7, 2, 1),
        FbInkRect::new(5, 6, 1, 1),
        FbInkRect::new(6, 7, 3, 1),
        FbInkRect::new(5, 8, 1, 2),
        FbInkRect::new(0, 0, 1, 1),
        FbInkRect::new(65535, 7, 65535, 1),
    ] {
        match dump.crop_rect(rect) {
            Err(FbInkError::InvalidArgument(msg)) => assert_eq!(msg, "region out of bounds"),
            other => panic!("{rect:?} gave {other:?}"),
        }
        assert_eq!(dump.clip(), FbInkRect::new(6, 7, 2, 1));
        assert!(!dump.is_full());
    }
}

#[test]
fn crop_to_an_empty_rect_fails_and_changes_nothing() {
    let mut dump = direct(10, 8, 8);
    for rect in [FbInkRect::new(1, 1, 0, 3), FbInkRect::new(1, 1, 3, 0), FbInkRect::default()] {
        match dump.crop(rect.left, rect.top, rect.width, rect.height) {
            Err(FbInkError::InvalidArgument(msg)) => assert_eq!(msg, "empty region"),
            other => panic!("{rect:?} gave {other:?}"),
        }
        assert_eq!(dump.clip(), dump.area());
        assert!(dump.is_full());
    }
}

#[test]
fn crop_of_an_indirect_snapshot() {
    let mut dump = indirect(6, 4);
    assert!(dump.is_full());
    assert_eq!(dump.clip(), FbInkRect::new(0, 0, 6, 4));
    dump.crop(1, 2, 3, 2).unwrap();
    assert_eq!(dump.clip(), FbInkRect::new(1, 2, 3, 2));
    assert!(!dump.is_full());
    assert!(matches!(dump.crop(4, 0, 3, 1), Err(FbInkError::InvalidArgument(_))));
    assert!(matches!(dump.crop(0, 0, 0, 0), Err(FbInkError::InvalidArgument(_))));
    assert_eq!(dump.clip(), FbInkRect::new(1, 2, 3, 2));
    dump.crop(0, 0, 6, 4).unwrap();
    assert!(dump.is_full());
}

#[test]
fn restoring_a_full_direct_snapshot_hands_the_buffer_back_from_its_start() {
    let dump = direct(10, 8, 32);
    match dump.restore().unwrap() {
        RestorePlan::Buffer { region, offset } => {
            assert_eq!(region, FbInkRect::new(0, 0, 10, 8));
            assert_eq!(offset, 0);
        }
        other => panic!("{other:?}"),
    }
}

#[test]
fn restoring_a_cropped_direct_snapshot_starts_at_the_clip() {
    let area = FbInkRect::new(100, 200, 10, 8);
    let mut dump = FbInkDump::new(vec![0; 48 * 8], 48, area, 0, 32).unwrap();
    dump.crop(103, 205, 4, 2).unwrap();
    match dump.restore().unwrap() {
        RestorePlan::Buffer { region, offset } => {
            assert_eq!(region, FbInkRect::new(103, 205, 4, 2));
            assert_eq!(offset, 5 * 48 + 3 * 4);
        }
        other => panic!("{other:?}"),
    }
}

#[test]
fn a_snapshot_without_bytes_cannot_be_restored() {
    let dump = FbInkDump::new(vec![], 40, FbInkRect::new(0, 0, 10, 0), 0, 32).unwrap();
    match dump.restore() {
        Err(FbInkError::InvalidArgument(msg)) => assert_eq!(msg, "no data"),
        other => panic!("{other:?}"),
    }
}

#[test]
fn restoring_a_full_indirect_snapshot_prints_every_pixel() {
    let dump = indirect(6, 4);
    match dump.restore().unwrap() {
        RestorePlan::Print(job) => {
            assert_eq!((job.w, job.h, job.x_off, job.y_off), (6, 4, 0, 0));
            assert_eq!(job.data, rgb_grid(6, 4).to_bytes());
            assert_eq!(job.data, dump.data());
        }
        other => panic!("{other:?}"),
    }
}

#[test]
fn restoring_a_cropped_indirect_snapshot_prints_only_the_clip() {
    let mut dump = indirect(6, 4);
    dump.crop(2, 1, 3, 2).unwrap();
    match dump.restore().unwrap() {
        RestorePlan::Print(job) => {
            assert_eq!((job.w, job.h, job.x_off, job.y_off), (3, 2, 2, 1));
            assert_eq!(
                job.data,
                vec![2, 1, 7, 3, 1, 7, 4, 1, 7, 2, 2, 7, 3, 2, 7, 4, 2, 7]
            );
        }
        other => panic!("{other:?}"),
    }
    // The bytes of the snapshot are the whole capture still.
    assert_eq!(dump.data().len(), 6 * 4 * 3);
}

#[test]
fn a_clip_beyond_the_print_offsets_cannot_be_restored() {
    let wide = PixelImage::new(32770, 1, Pixels::Rgb8(vec![0; 32770 * 3])).unwrap();
    let mut dump = SunxiDump::from_decoded(1, wide).unwrap();
    dump.crop(32767, 0, 2, 1).unwrap();
    assert!(matches!(dump.restore(), Ok(RestorePlan::Print(_))));
    dump.crop(32768, 0, 2, 1).unwrap();
    assert!(matches!(dump.restore(), Err(FbInkError::SunxiDumpError)));
}

#[test]
fn an_indirect_snapshot_describes_its_image() {
    let dump = indirect(6, 4);
    assert_eq!(dump.area(), FbInkRect::new(0, 0, 6, 4));
    assert_eq!(dump.bpp(), 24);
    assert_eq!(dump.rota(), 1);
    assert_eq!(dump.stride(), 18);
    assert_eq!(dump.size(), 72);
    assert_eq!(dump.data(), &rgb_grid(6, 4).to_bytes()[..]);
}

#[test]
fn decoding_by_depth() {
    for (bpp, layout) in [
        (8, PixelLayout::Luma8),
        (16, PixelLayout::Luma16),
        (24, PixelLayout::Rgb8),
        (32, PixelLayout::Rgba8),
    ] {
        let dump = direct(3, 2, bpp);
        let image = dump.dynamic_image().unwrap();
        assert_eq!(image.layout(), layout);
        assert_eq!((image.width(), image.height()), (3, 2));
        assert_eq!(image.to_bytes(), dump.data());
    }
}

#[test]
fn decoding_an_unknown_depth_is_not_supported() {
    for bpp in [0, 1, 4, 15, 17, 48, 255] {
        let area = FbInkRect::new(0, 0, 2, 2);
        let stride = (2 * bpp as usize + 7) / 8;
        let dump = FbInkDump::new(vec![0; stride * 2], stride, area, 0, bpp).unwrap();
        match dump.dynamic_image() {
            Err(FbInkError::NotSupported(msg)) => {
                assert_eq!(msg, "Unable to convert dump to DynamicImage")
            }
            other => panic!("{bpp} bpp gave {other:?}"),
        }
    }
}

#[test]
fn sixteen_bit_samples_are_read_in_native_byte_order() {
    let data = vec![0x01, 0x02, 0x03, 0x04, 0xff, 0x00, 0x00, 0xff];
    let dump = FbInkDump::new(data.clone(), 4, FbInkRect::new(0, 0, 2, 2), 0, 16).unwrap();
    let image = dump.dynamic_image().unwrap();
    let expected: Vec<u16> =
        data.chunks(2).map(|pair| u16::from_ne_bytes([pair[0], pair[1]])).collect();
    match image.pixels() {
        Pixels::Luma16(samples) => {
            assert_eq!(samples.len(), 2 * 2);
            assert_eq!(samples, &expected);
        }
        other => panic!("{other:?}"),
    }
}

#[test]
fn sixteen_bit_samples_need_an_even_number_of_bytes() {
    // One scanline of five bytes holds two samples and a byte of padding.
    let dump = FbInkDump::new(vec![0; 5], 5, FbInkRect::new(0, 0, 2, 1), 0, 16).unwrap();
    match dump.dynamic_image() {
        Err(FbInkError::NotSupported(msg)) => {
            assert_eq!(msg, "Unable to convert dump to DynamicImage")
        }
        other => panic!("{other:?}"),
    }
    match dump.encode(ImageFormat::Png) {
        Err(FbInkError::NotSupported(msg)) => assert_eq!(msg, "Can't encode a dump with 16 bpp"),
        other => panic!("{other:?}"),
    }
    let even = FbInkDump::new(vec![0; 6], 6, FbInkRect::new(0, 0, 2, 1), 0, 16).unwrap();
    assert!(even.dynamic_image().is_ok());
}

#[test]
fn decoding_reads_the_leading_bytes_of_a_padded_buffer() {
    let data = counting_bytes(8 * 2);
    let dump = FbInkDump::new(data.clone(), 8, FbInkRect::new(0, 0, 2, 2), 0, 24).unwrap();
    let image = dump.dynamic_image().unwrap();
    assert_eq!(image.to_bytes(), &data[..12]);
}

#[test]
fn the_decoded_image_is_kept() {
    let mut dump = direct(3, 2, 24);
    let first = dump.dynamic_image_ref().unwrap().to_bytes();
    let second = dump.dynamic_image_ref().unwrap().to_bytes();
    assert_eq!(first, second);
    assert_eq!(first, dump.data());
    let mut odd = FbInkDump::new(vec![0; 4], 2, FbInkRect::new(0, 0, 4, 2), 0, 4).unwrap();
    assert!(matches!(odd.dynamic_image_ref(), Err(FbInkError::NotSupported(_))));
    assert!(matches!(odd.dynamic_image_ref(), Err(FbInkError::NotSupported(_))));
}

#[test]
fn the_image_of_an_indirect_snapshot_is_what_it_shows() {
    let mut dump = indirect(6, 4);
    assert_eq!(dump.dynamic_image().unwrap().to_bytes(), rgb_grid(6, 4).to_bytes());
    assert_eq!(dump.dynamic_image_ref().unwrap().to_bytes(), rgb_grid(6, 4).to_bytes());
    assert_eq!(dump.dynamic_image().unwrap().layout(), PixelLayout::Rgb8);
}

#[test]
fn encoding_a_24_bit_buffer_round_trips() {
    let dump = direct(7, 5, 24);
    for format in [ImageFormat::Png, ImageFormat::Bmp] {
        let file = dump.encode(format).unwrap();
        let decoded = image::load_from_memory(&file).unwrap();
        assert_eq!((decoded.width(), decoded.height()), (7, 5));
        assert_eq!(decoded.color(), image::ColorType::Rgb8);
        assert_eq!(decoded.as_bytes(), dump.data());
    }
}

#[test]
fn encoding_every_depth_as_png_round_trips() {
    for (bpp, color) in [
        (8, image::ColorType::L8),
        (16, image::ColorType::L16),
        (32, image::ColorType::Rgba8),
    ] {
        let dump = direct(5, 3, bpp);
        let file = dump.encode(ImageFormat::Png).unwrap();
        assert_eq!(&file[..8], b"\x89PNG\r\n\x1a\n");
        let decoded = image::load_from_memory(&file).unwrap();
        assert_eq!(decoded.color(), color);
        assert_eq!(decoded.as_bytes(), dump.data());
    }
}

#[test]
fn a_bitmap_cannot_hold_sixteen_bit_samples() {
    let dump = direct(5, 3, 16);
    assert!(matches!(dump.encode(ImageFormat::Bmp), Err(FbInkError::ImageError(_))));
}

#[test]
fn a_snapshot_without_pixels_cannot_be_a_png() {
    let dump = FbInkDump::new(vec![], 0, FbInkRect::new(0, 0, 0, 0), 0, 24).unwrap();
    assert!(matches!(dump.encode(ImageFormat::Png), Err(FbInkError::ImageError(_))));
}

#[test]
fn encoding_an_unknown_depth_is_not_supported() {
    let dump = FbInkDump::new(vec![0; 4], 2, FbInkRect::new(0, 0, 4, 2), 0, 4).unwrap();
    match dump.encode(ImageFormat::Png) {
        Err(FbInkError::NotSupported(msg)) => assert_eq!(msg, "Can't encode a dump with 4 bpp"),
        other => panic!("{other:?}"),
    }
}

#[test]
fn encoding_an_indirect_snapshot() {
    let dump = indirect(6, 4);
    let file = dump.encode(ImageFormat::Png).unwrap();
    let decoded = image::load_from_memory(&file).unwrap();
    assert_eq!(decoded.as_bytes(), rgb_grid(6, 4).to_bytes());
}

#[test]
fn encoding_ignores_the_clip() {
    let mut dump = direct(7, 5, 24);
    let whole = dump.encode(ImageFormat::Png).unwrap();
    dump.crop(1, 1, 2, 2).unwrap();
    assert_eq!(dump.encode(ImageFormat::Png).unwrap(), whole);
}

#[test]
fn an_opaque_overlay_replaces_what_is_under_it() {
    let mut dump = indirect(6, 4);
    let overlay = PixelImage::new(
        2,
        1,
        Pixels::Rgba8(vec![200, 100, 50, 255, 9, 8, 7, 255]),
    )
    .unwrap();
    let job = dump.print_overlay(&overlay, 3, 2).unwrap();
    assert_eq!((job.w, job.h, job.x_off, job.y_off), (2, 1, 3, 2));
    assert_eq!(job.data, vec![200, 100, 50, 9, 8, 7]);
    // The snapshot itself is as it was.
    assert_eq!(dump.data(), &rgb_grid(6, 4).to_bytes()[..]);
    assert!(dump.is_full());
}

#[test]
fn a_transparent_overlay_shows_what_is_under_it() {
    let mut dump = indirect(6, 4);
    let overlay = PixelImage::new(2, 2, Pixels::Rgba8(vec![255, 255, 255, 0].repeat(4))).unwrap();
    let job = dump.print_overlay(&overlay, 4, 1).unwrap();
    assert_eq!((job.w, job.h, job.x_off, job.y_off), (2, 2, 4, 1));
    assert_eq!(job.data, vec![4, 1, 7, 5, 1, 7, 4, 2, 7, 5, 2, 7]);
}

#[test]
fn an_overlay_blends_as_the_codec_does() {
    let mut dump = direct(4, 4, 32);
    let overlay =
        PixelImage::new(2, 2, Pixels::Rgba8(counting_bytes(16).into_iter().rev().collect()))
            .unwrap();
    let job = dump.print_overlay(&overlay, 1, 2).unwrap();
    let mut bottom = image::DynamicImage::ImageRgba8(
        image::RgbaImage::from_raw(4, 4, dump.data().to_vec()).unwrap(),
    )
    .crop_imm(1, 2, 2, 2);
    let top = image::DynamicImage::ImageRgba8(
        image::RgbaImage::from_raw(2, 2, overlay.to_bytes()).unwrap(),
    );
    image::imageops::overlay(&mut bottom, &top, 0, 0);
    assert_eq!(job.data, bottom.as_bytes());
    assert_ne!(job.data, overlay.to_bytes());
}

#[test]
fn an_overlay_that_does_not_fit_is_refused() {
    let mut dump = indirect(6, 4);
    let overlay = PixelImage::new(2, 2, Pixels::Rgba8(vec![0; 16])).unwrap();
    for (x, y) in [(5, 0), (0, 3), (6, 0), (0, 4), (4294967295, 0), (0, 4294967295)] {
        match dump.print_overlay(&overlay, x, y) {
            Err(FbInkError::InvalidArgument(msg)) => {
                assert_eq!(msg, "overlay does not fit inside the dump")
            }
            other => panic!("({x}, {y}) gave {other:?}"),
        }
    }
    assert!(dump.print_overlay(&overlay, 4, 2).is_ok());
}

#[test]
fn an_overlay_beyond_the_print_offsets_is_refused() {
    let wide = PixelImage::new(32770, 1, Pixels::Rgb8(vec![0; 32770 * 3])).unwrap();
    let mut dump = SunxiDump::from_decoded(1, wide).unwrap();
    let overlay = PixelImage::new(1, 1, Pixels::Rgba8(vec![1, 2, 3, 255])).unwrap();
    assert!(dump.print_overlay(&overlay, 32767, 0).is_ok());
    assert!(matches!(dump.print_overlay(&overlay, 32768, 0), Err(FbInkError::SunxiDumpError)));
}

#[test]
fn an_overlay_on_an_unknown_depth_is_not_supported() {
    let mut dump = FbInkDump::new(vec![0; 4], 2, FbInkRect::new(0, 0, 4, 2), 0, 4).unwrap();
    let overlay = PixelImage::new(1, 1, Pixels::Rgba8(vec![1, 2, 3, 255])).unwrap();
    match dump.print_overlay(&overlay, 0, 0) {
        Err(FbInkError::NotSupported(msg)) => {
            assert_eq!(msg, "Unable to convert dump to DynamicImage")
        }
        other => panic!("{other:?}"),
    }
}
