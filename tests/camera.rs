use tinyraytracer::camera::{pixel_offset, render};

#[test]
fn offsets_of_corner_pixels() {
    assert_eq!(pixel_offset(1024, 768, 0, 0), (-1023, 767));
    assert_eq!(pixel_offset(1024, 768, 767, 1023), (1023, -767));
}

#[test]
fn offset_of_single_pixel_is_the_axis() {
    assert_eq!(pixel_offset(1, 1, 0, 0), (0, 0));
}

#[test]
fn offsets_are_symmetric_about_the_center() {
    let (w, h) = (5usize, 4usize);
    for i in 0..h {
        for j in 0..w {
            let (x, y) = pixel_offset(w, h, i, j);
            let (x2, y2) = pixel_offset(w, h, h - 1 - i, w - 1 - j);
            assert_eq!((x, y), (-x2, -y2));
        }
    }
}

#[test]
fn render_shades_every_pixel_with_its_offsets() {
    let fb = render(3, 2, (0i64, 0i64), |x, y| (x, y));
    assert_eq!(fb.width(), 3);
    assert_eq!(fb.height(), 2);
    assert_eq!(
        fb.cells(),
        &vec![(-2, 1), (0, 1), (2, 1), (-2, -1), (0, -1), (2, -1)]
    );
}

#[test]
fn render_with_constant_shade_fills_the_image() {
    let fb = render(4, 3, 0u8, |_, _| 42u8);
    assert!(fb.cells().iter().all(|c| *c == 42));
    assert_eq!(fb.cells().len(), 12);
}
