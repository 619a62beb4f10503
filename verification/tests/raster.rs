use quorp_tui::raster::{
    crop_roi, flip_horizontal_rgba, normalize_pair_to_same_size, pixel_at, pixel_mismatch_count,
    resize_to_width, Raster,
};

/// A `width` by `height` image whose pixel (x, y) is (x, y, x + y, 255).
fn gradient(width: u32, height: u32) -> Raster {
    let mut data = Vec::new();
    for y in 0..height {
        for x in 0..width {
            data.extend_from_slice(&[x as u8, y as u8, (x + y) as u8, 255]);
        }
    }
    Raster { width, height, data }
}

#[test]
fn flip_mirrors_each_row() {
    let img = gradient(3, 2);
    let flipped = flip_horizontal_rgba(&img);
    assert_eq!((flipped.width, flipped.height), (3, 2));
    assert_eq!(pixel_at(&flipped, 0, 0), [2, 0, 2, 255]);
    assert_eq!(pixel_at(&flipped, 2, 1), [0, 1, 1, 255]);
    let back = flip_horizontal_rgba(&flipped);
    assert_eq!(back.data, img.data);
}

#[test]
fn roi_crop_clips_to_the_image() {
    let img = gradient(4, 4);
    let roi = crop_roi(&img, 2, 1, 10, 2);
    assert_eq!((roi.width, roi.height), (2, 2));
    assert_eq!(pixel_at(&roi, 0, 0), [2, 1, 3, 255]);
    assert_eq!(pixel_at(&roi, 1, 1), [3, 2, 5, 255]);
    let outside = crop_roi(&img, 4, 0, 2, 2);
    assert_eq!((outside.width, outside.height), (1, 1));
    assert_eq!(outside.data, vec![0, 0, 0, 255]);
    let empty = crop_roi(&img, 0, 0, 0, 2);
    assert_eq!(empty.data, vec![0, 0, 0, 255]);
}

#[test]
fn resize_to_width_keeps_proportions() {
    let img = gradient(8, 4);
    let half = resize_to_width(&img, 4);
    assert_eq!((half.width, half.height), (4, 2));
    assert_eq!(half.data.len(), 4 * 4 * 2);
    let thin = resize_to_width(&gradient(8, 1), 2);
    assert_eq!((thin.width, thin.height), (2, 1));
    let empty = Raster { width: 0, height: 3, data: vec![] };
    let same = resize_to_width(&empty, 5);
    assert_eq!((same.width, same.height), (0, 3));
}

#[test]
fn pair_is_brought_to_one_size() {
    let (a, b) = normalize_pair_to_same_size(&gradient(96, 48), &gradient(48, 48));
    assert_eq!((a.width, a.height), (960, 960));
    assert_eq!((b.width, b.height), (960, 960));
}

#[test]
fn mismatch_counts_differing_colours_only() {
    let a = gradient(3, 3);
    let mut b = gradient(3, 3);
    b.data[3] = 0;
    assert_eq!(pixel_mismatch_count(&a, &b), Ok(0));
    b.data[4] = 99;
    b.data[34] = 99;
    assert_eq!(pixel_mismatch_count(&a, &b), Ok(2));
    assert_eq!(
        pixel_mismatch_count(&a, &gradient(2, 5)),
        Err("dimension mismatch: (3, 3) vs (2, 5)".to_string())
    );
}
