use fbink_rs::pixels::{PixelImage, PixelLayout, Pixels};

fn rgb_grid(width: u32, height: u32) -> PixelImage {
    let mut samples = Vec::new();
    for y in 0..height {
        for x in 0..width {
            samples.push(x as u8);
            samples.push(y as u8);
            samples.push((10 * y + x) as u8);
        }
    }
    PixelImage::new(width, height, Pixels::Rgb8(samples)).unwrap()
}

fn rgb_at(img: &PixelImage, x: u32, y: u32) -> (u8, u8, u8) {
    match img.pixels() {
        Pixels::Rgb8(v) => {
            let i = ((y * img.width() + x) * 3) as usize;
            (v[i], v[i + 1], v[i + 2])
        }
        _ => panic!("not an RGB image"),
    }
}

fn as_codec_image(img: &PixelImage) -> image::DynamicImage {
    let (w, h) = (img.width(), img.height());
    match img.pixels() {
        Pixels::Luma8(v) => image::GrayImage::from_raw(w, h, v.clone()).unwrap().into(),
        Pixels::Luma16(v) => {
            image::DynamicImage::ImageLuma16(image::ImageBuffer::from_raw(w, h, v.clone()).unwrap())
        }
        Pixels::Rgb8(v) => image::RgbImage::from_raw(w, h, v.clone()).unwrap().into(),
        Pixels::Rgba8(v) => image::RgbaImage::from_raw(w, h, v.clone()).unwrap().into(),
    }
}

fn assert_same(ours: &PixelImage, theirs: &image::DynamicImage) {
    assert_eq!((ours.width(), ours.height()), (theirs.width(), theirs.height()));
    assert_eq!(ours.to_bytes(), theirs.as_bytes());
}

fn samples_of_every_layout() -> Vec<PixelImage> {
    let bytes: Vec<u8> = (0..=255).collect();
    let words: Vec<u16> = (0..35).map(|i| 1000 * i + 7).collect();
    vec![
        PixelImage::new(7, 5, Pixels::Luma8(bytes[..35].to_vec())).unwrap(),
        PixelImage::new(7, 5, Pixels::Luma16(words)).unwrap(),
        PixelImage::new(7, 5, Pixels::Rgb8(bytes[..105].to_vec())).unwrap(),
        PixelImage::new(7, 5, Pixels::Rgba8(bytes[..140].to_vec())).unwrap(),
        PixelImage::new(1, 1, Pixels::Rgb8(vec![1, 2, 3])).unwrap(),
        PixelImage::new(0, 3, Pixels::Rgb8(vec![])).unwrap(),
        PixelImage::new(3, 0, Pixels::Luma8(vec![])).unwrap(),
    ]
}

#[test]
fn new_rejects_a_wrong_sample_count() {
    assert!(PixelImage::new(2, 2, Pixels::Rgb8(vec![0; 11])).is_none());
    assert!(PixelImage::new(2, 2, Pixels::Rgb8(vec![0; 13])).is_none());
    assert!(PixelImage::new(2, 2, Pixels::Rgb8(vec![0; 12])).is_some());
    assert!(PixelImage::new(2, 2, Pixels::Luma16(vec![0; 4])).is_some());
    assert!(PixelImage::new(2, 2, Pixels::Luma16(vec![0; 8])).is_none());
    assert!(PixelImage::new(2, 2, Pixels::Rgba8(vec![0; 16])).is_some());
    assert!(PixelImage::new(2, 2, Pixels::Luma8(vec![0; 4])).is_some());
    assert!(PixelImage::new(0, 7, Pixels::Rgba8(vec![])).is_some());
    assert!(PixelImage::new(4294967295, 4294967295, Pixels::Rgba8(vec![])).is_none());
}

#[test]
fn layout_of_depth() {
    assert_eq!(PixelLayout::from_bpp(32), Some(PixelLayout::Rgba8));
    assert_eq!(PixelLayout::from_bpp(24), Some(PixelLayout::Rgb8));
    assert_eq!(PixelLayout::from_bpp(16), Some(PixelLayout::Luma16));
    assert_eq!(PixelLayout::from_bpp(8), Some(PixelLayout::Luma8));
    assert_eq!(PixelLayout::from_bpp(4), None);
    assert_eq!(PixelLayout::from_bpp(0), None);
    assert_eq!(PixelLayout::from_bpp(255), None);
}

#[test]
fn layouts_know_their_sizes() {
    for (layout, channels, bytes, bits) in [
        (PixelLayout::Luma8, 1, 1, 8),
        (PixelLayout::Luma16, 1, 2, 16),
        (PixelLayout::Rgb8, 3, 3, 24),
        (PixelLayout::Rgba8, 4, 4, 32),
    ] {
        assert_eq!(layout.channels(), channels);
        assert_eq!(layout.bytes_per_pixel(), bytes);
        assert_eq!(layout.bits_per_pixel(), bits);
        assert_eq!(PixelLayout::from_bpp(bits), Some(layout));
    }
}

#[test]
fn rotate90_moves_the_top_left_pixel_to_the_top_right() {
    let img = rgb_grid(3, 2);
    let turned = img.rotate90();
    assert_eq!((turned.width(), turned.height()), (2, 3));
    assert_eq!(rgb_at(&turned, 1, 0), rgb_at(&img, 0, 0));
    assert_eq!(rgb_at(&turned, 0, 0), rgb_at(&img, 0, 1));
    assert_eq!(rgb_at(&turned, 0, 2), rgb_at(&img, 2, 1));
    assert_eq!(rgb_at(&turned, 1, 2), rgb_at(&img, 2, 0));
}

#[test]
fn rotate180_moves_the_top_left_pixel_to_the_bottom_right() {
    let img = rgb_grid(3, 2);
    let turned = img.rotate180();
    assert_eq!((turned.width(), turned.height()), (3, 2));
    assert_eq!(rgb_at(&turned, 2, 1), rgb_at(&img, 0, 0));
    assert_eq!(rgb_at(&turned, 0, 0), rgb_at(&img, 2, 1));
    assert_eq!(rgb_at(&turned, 1, 0), rgb_at(&img, 1, 1));
}

#[test]
fn rotate270_moves_the_top_left_pixel_to_the_bottom_left() {
    let img = rgb_grid(3, 2);
    let turned = img.rotate270();
    assert_eq!((turned.width(), turned.height()), (2, 3));
    assert_eq!(rgb_at(&turned, 0, 2), rgb_at(&img, 0, 0));
    assert_eq!(rgb_at(&turned, 0, 0), rgb_at(&img, 2, 0));
    assert_eq!(rgb_at(&turned, 1, 0), rgb_at(&img, 2, 1));
}

#[test]
fn flip_vertical_swaps_the_rows() {
    let img = rgb_grid(3, 2);
    let flipped = img.flip_vertical();
    assert_eq!((flipped.width(), flipped.height()), (3, 2));
    for x in 0..3 {
        assert_eq!(rgb_at(&flipped, x, 0), rgb_at(&img, x, 1));
        assert_eq!(rgb_at(&flipped, x, 1), rgb_at(&img, x, 0));
    }
}

#[test]
fn turns_and_flips_agree_with_the_codec() {
    for img in samples_of_every_layout() {
        let theirs = as_codec_image(&img);
        assert_same(&img.rotate90(), &theirs.rotate90());
        assert_same(&img.rotate180(), &theirs.rotate180());
        assert_same(&img.rotate270(), &theirs.rotate270());
        assert_same(&img.flip_vertical(), &theirs.flipv());
    }
}

#[test]
fn four_quarter_turns_give_the_image_back() {
    for img in samples_of_every_layout() {
        let back = img.rotate90().rotate90().rotate90().rotate90();
        assert_eq!(back.to_bytes(), img.to_bytes());
        assert_eq!(img.rotate90().rotate270().to_bytes(), img.to_bytes());
        assert_eq!(img.rotate180().rotate180().to_bytes(), img.to_bytes());
        assert_eq!(img.flip_vertical().flip_vertical().to_bytes(), img.to_bytes());
    }
}

#[test]
fn crop_keeps_the_window() {
    let img = rgb_grid(5, 4);
    let window = img.crop(1, 2, 3, 2).unwrap();
    assert_eq!((window.width(), window.height()), (3, 2));
    for y in 0..2 {
        for x in 0..3 {
            assert_eq!(rgb_at(&window, x, y), rgb_at(&img, x + 1, y + 2));
        }
    }
}

#[test]
fn crop_agrees_with_the_codec() {
    for img in samples_of_every_layout() {
        if img.width() < 7 {
            continue;
        }
        let theirs = as_codec_image(&img);
        for (x, y, w, h) in [(0, 0, 7, 5), (2, 1, 3, 3), (6, 4, 1, 1), (0, 0, 0, 0), (3, 0, 4, 5)] {
            assert_same(&img.crop(x, y, w, h).unwrap(), &theirs.crop_imm(x, y, w, h));
        }
    }
}

#[test]
fn crop_to_the_whole_image_changes_nothing() {
    for img in samples_of_every_layout() {
        let whole = img.crop(0, 0, img.width(), img.height()).unwrap();
        assert_eq!(whole.to_bytes(), img.to_bytes());
        assert_eq!((whole.width(), whole.height()), (img.width(), img.height()));
    }
}

#[test]
fn crop_outside_the_image_gives_nothing() {
    let img = rgb_grid(5, 4);
    assert!(img.crop(0, 0, 6, 4).is_none());
    assert!(img.crop(0, 0, 5, 5).is_none());
    assert!(img.crop(5, 0, 1, 1).is_none());
    assert!(img.crop(0, 4, 1, 1).is_none());
    assert!(img.crop(4294967295, 0, 2, 1).is_none());
    assert!(img.crop(0, 4294967295, 1, 4294967295).is_none());
    assert!(img.crop(5, 4, 0, 0).is_some());
}

#[test]
fn raw_bytes_round_trip() {
    for img in samples_of_every_layout() {
        let bytes = img.to_bytes();
        assert_eq!(bytes.len(), (img.width() * img.height()) as usize * img.layout().bytes_per_pixel());
        let back = PixelImage::from_bytes(&bytes, img.width(), img.height(), img.layout()).unwrap();
        assert_eq!(back.to_bytes(), bytes);
        assert_eq!(back.layout(), img.layout());
        assert_eq!(as_codec_image(&back).as_bytes(), as_codec_image(&img).as_bytes());
    }
}

#[test]
fn samples_of_16_bits_take_two_bytes_in_native_order() {
    let img = PixelImage::new(2, 1, Pixels::Luma16(vec![0x0102, 0xfffe])).unwrap();
    let mut expected = Vec::new();
    expected.extend_from_slice(&0x0102u16.to_ne_bytes());
    expected.extend_from_slice(&0xfffeu16.to_ne_bytes());
    assert_eq!(img.to_bytes(), expected);
    assert_ne!(img.to_bytes(), vec![0x02, 0x02, 0xfe, 0xfe]);
    let back = PixelImage::from_bytes(&expected, 2, 1, PixelLayout::Luma16).unwrap();
    match back.pixels() {
        Pixels::Luma16(samples) => assert_eq!(samples, &vec![0x0102, 0xfffe]),
        other => panic!("{other:?}"),
    }
}

#[test]
fn from_bytes_reads_the_leading_bytes() {
    let bytes: Vec<u8> = (0..20).collect();
    let img = PixelImage::from_bytes(&bytes, 2, 2, PixelLayout::Rgb8).unwrap();
    assert_eq!(img.to_bytes(), &bytes[..12]);
    assert!(PixelImage::from_bytes(&bytes, 2, 2, PixelLayout::Rgba8).is_some());
    assert!(PixelImage::from_bytes(&bytes, 3, 2, PixelLayout::Rgba8).is_none());
    assert!(PixelImage::from_bytes(&bytes, 5, 2, PixelLayout::Luma16).is_some());
    assert!(PixelImage::from_bytes(&bytes[..19], 5, 2, PixelLayout::Luma16).is_none());
    assert!(PixelImage::from_bytes(&[], 0, 0, PixelLayout::Luma8).is_some());
    assert!(PixelImage::from_bytes(&bytes, 65536, 65536, PixelLayout::Luma8).is_none());
}

#[test]
fn a_duplicate_holds_the_same_pixels() {
    for img in samples_of_every_layout() {
        let copy = img.duplicate();
        assert_eq!(copy.to_bytes(), img.to_bytes());
        assert_eq!((copy.width(), copy.height(), copy.layout()), (img.width(), img.height(), img.layout()));
        assert_eq!(copy.pixels().len(), img.pixels().len());
    }
}
