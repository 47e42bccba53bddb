use texture_upload::pixels::{PixelSource, Rgba};

const RED: Rgba = Rgba { r: 255, g: 0, b: 0, a: 255 };

#[test]
fn new_accepts_exact_length_only() {
    assert!(PixelSource::new(2, 2, vec![0; 16]).is_some());
    assert!(PixelSource::new(2, 2, vec![0; 15]).is_none());
    assert!(PixelSource::new(2, 2, vec![0; 17]).is_none());
    assert!(PixelSource::new(0, 5, Vec::new()).is_some());
    assert!(PixelSource::new(0, 5, vec![0; 4]).is_none());
    let p = PixelSource::new(3, 1, vec![9; 12]).unwrap();
    assert_eq!(p.dimensions(), (3, 1));
    assert_eq!(p.data, vec![9; 12]);
    assert!(p.is_valid());
}

#[test]
fn is_valid_checks_length() {
    assert!(PixelSource { width: 1, height: 1, data: vec![1, 2, 3, 4] }.is_valid());
    assert!(!PixelSource { width: 1, height: 1, data: vec![1, 2, 3] }.is_valid());
    assert!(!PixelSource { width: u32::MAX, height: u32::MAX, data: Vec::new() }.is_valid());
}

#[test]
fn filled_sets_every_texel() {
    let p = PixelSource::filled(3, 2, RED).unwrap();
    assert_eq!(p.dimensions(), (3, 2));
    assert_eq!(p.data.len(), 24);
    for y in 0..2 {
        for x in 0..3 {
            assert_eq!(p.get_pixel(x, y), RED);
        }
    }
    assert_eq!(&p.data[..8], &[255, 0, 0, 255, 255, 0, 0, 255]);
}

#[test]
fn put_pixel_changes_one_texel() {
    let mut p = PixelSource::filled(4, 3, Rgba { r: 1, g: 2, b: 3, a: 4 }).unwrap();
    let before = p.data.clone();
    p.put_pixel(2, 1, RED);
    assert_eq!(p.get_pixel(2, 1), RED);
    let at = (1 * 4 + 2) * 4;
    assert_eq!(&p.data[at..at + 4], &[255, 0, 0, 255]);
    for k in 0..before.len() {
        if k < at || k >= at + 4 {
            assert_eq!(p.data[k], before[k]);
        }
    }
}

#[test]
fn get_pixel_reads_row_major() {
    let data: Vec<u8> = (0u8..24).collect();
    let p = PixelSource::new(3, 2, data).unwrap();
    assert_eq!(p.get_pixel(0, 0), Rgba { r: 0, g: 1, b: 2, a: 3 });
    assert_eq!(p.get_pixel(2, 0), Rgba { r: 8, g: 9, b: 10, a: 11 });
    assert_eq!(p.get_pixel(0, 1), Rgba { r: 12, g: 13, b: 14, a: 15 });
    assert_eq!(p.get_pixel(2, 1), Rgba { r: 20, g: 21, b: 22, a: 23 });
}

#[test]
fn from_rgb_adds_opaque_alpha() {
    let p = PixelSource::from_rgb(2, 1, vec![10, 20, 30, 40, 50, 60]).unwrap();
    assert_eq!(p.dimensions(), (2, 1));
    assert_eq!(p.data, vec![10, 20, 30, 255, 40, 50, 60, 255]);
    assert!(p.is_valid());
}

#[test]
fn from_rgb_drops_bytes_behind_the_last_texel() {
    let p = PixelSource::from_rgb(1, 2, vec![1, 2, 3, 4, 5, 6, 7, 8]).unwrap();
    assert_eq!(p.data, vec![1, 2, 3, 255, 4, 5, 6, 255]);
}

#[test]
fn from_rgb_rejects_short_data() {
    assert!(PixelSource::from_rgb(2, 2, vec![0; 11]).is_none());
    assert!(PixelSource::from_rgb(2, 2, vec![0; 12]).is_some());
    assert!(PixelSource::from_rgb(u32::MAX, u32::MAX, vec![0; 12]).is_none());
}

#[test]
fn from_rgb_of_empty_image() {
    let p = PixelSource::from_rgb(0, 7, Vec::new()).unwrap();
    assert_eq!(p.dimensions(), (0, 7));
    assert!(p.data.is_empty());
    let q = PixelSource::from_rgb(5, 0, vec![1, 2, 3]).unwrap();
    assert!(q.data.is_empty());
}

#[test]
fn from_rgb_agrees_with_image_crate() {
    let rgb: Vec<u8> = (0u8..27).collect();
    let ours = PixelSource::from_rgb(3, 3, rgb.clone()).unwrap();
    let theirs = image::DynamicImage::ImageRgb8(image::RgbImage::from_raw(3, 3, rgb).unwrap())
        .to_rgba8();
    assert_eq!(ours.data, theirs.into_raw());
}

#[test]
fn fill_rect_sets_the_rectangle_only() {
    let blue = Rgba { r: 0, g: 0, b: 255, a: 255 };
    let mut p = PixelSource::filled(6, 5, blue).unwrap();
    p.fill_rect(1, 2, 4, 4, RED);
    for y in 0..5 {
        for x in 0..6 {
            let inside = (1..4).contains(&x) && (2..4).contains(&y);
            assert_eq!(p.get_pixel(x, y), if inside { RED } else { blue });
        }
    }
    assert!(p.is_valid());
}

#[test]
fn fill_rect_of_nothing_changes_nothing() {
    let blue = Rgba { r: 0, g: 0, b: 255, a: 255 };
    let mut p = PixelSource::filled(3, 3, blue).unwrap();
    let before = p.data.clone();
    p.fill_rect(2, 1, 2, 3, RED);
    p.fill_rect(0, 3, 3, 3, RED);
    assert_eq!(p.data, before);
}

#[test]
fn fill_rect_of_everything() {
    let mut p = PixelSource::filled(3, 2, Rgba { r: 9, g: 9, b: 9, a: 9 }).unwrap();
    p.fill_rect(0, 0, 3, 2, RED);
    assert_eq!(p.data, PixelSource::filled(3, 2, RED).unwrap().data);
}

#[test]
fn mark_cross_sets_the_same_texels_as_two_bars_of_put_pixel() {
    let blue = Rgba { r: 0, g: 0, b: 255, a: 255 };
    let mut marked = PixelSource::filled(32, 32, blue).unwrap();
    assert!(marked.mark_cross(RED));
    let mut expected = PixelSource::filled(32, 32, blue).unwrap();
    for x in 15..=17 {
        for y in 8..24 {
            expected.put_pixel(x, y, RED);
            expected.put_pixel(y, x, RED);
        }
    }
    assert_eq!(marked.data, expected.data);
    assert_eq!(marked.get_pixel(16, 8), RED);
    assert_eq!(marked.get_pixel(8, 16), RED);
    assert_eq!(marked.get_pixel(23, 17), RED);
    assert_eq!(marked.get_pixel(16, 16), RED);
    assert_eq!(marked.get_pixel(14, 14), blue);
    assert_eq!(marked.get_pixel(16, 7), blue);
    assert_eq!(marked.get_pixel(16, 24), blue);
    assert_eq!(marked.get_pixel(18, 8), blue);
}

#[test]
fn mark_cross_fits_exactly_into_24_by_24() {
    let blue = Rgba { r: 0, g: 0, b: 255, a: 255 };
    let mut p = PixelSource::filled(24, 24, blue).unwrap();
    assert!(p.mark_cross(RED));
    assert_eq!(p.get_pixel(23, 16), RED);
    assert_eq!(p.get_pixel(16, 23), RED);
    assert_eq!(p.data.chunks(4).filter(|t| *t == [255, 0, 0, 255]).count(), 3 * 16 * 2 - 9);
}

#[test]
fn mark_cross_leaves_small_images_alone() {
    let blue = Rgba { r: 0, g: 0, b: 255, a: 255 };
    for (width, height) in [(23u32, 32u32), (32, 23), (1, 1), (0, 0)] {
        let mut p = PixelSource::filled(width, height, blue).unwrap();
        let before = p.data.clone();
        assert!(!p.mark_cross(RED));
        assert_eq!(p.data, before);
    }
}
