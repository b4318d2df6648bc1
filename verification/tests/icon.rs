use eng_on_esc::icon::{icon_rgba, ICON_BYTES, ICON_SIZE};

/// The icon as the floating-point drawing of a circle of radius 7.5 gives it.
fn float_icon() -> Vec<u8> {
    const SIZE: usize = 22;
    let mut rgba = vec![0u8; SIZE * SIZE * 4];
    let cx = (SIZE as f32 - 1.0) / 2.0;
    let cy = cx;
    let r = 7.5f32;
    for y in 0..SIZE {
        for x in 0..SIZE {
            let dx = x as f32 - cx;
            let dy = y as f32 - cy;
            let alpha = if (dx * dx + dy * dy).sqrt() <= r { 255u8 } else { 0u8 };
            let i = (y * SIZE + x) * 4;
            rgba[i + 3] = alpha;
        }
    }
    rgba
}

#[test]
fn icon_matches_the_circle() {
    assert_eq!(icon_rgba(), float_icon());
}

#[test]
fn icon_size_and_shape() {
    let v = icon_rgba();
    assert_eq!(ICON_SIZE, 22);
    assert_eq!(v.len(), ICON_BYTES);
    assert_eq!(ICON_BYTES, 22 * 22 * 4);
    let alpha = |x: usize, y: usize| v[(y * 22 + x) * 4 + 3];
    assert_eq!(alpha(10, 10), 255);
    assert_eq!(alpha(0, 0), 0);
    assert_eq!(alpha(21, 21), 0);
    assert_eq!(alpha(4, 10), 255);
    assert_eq!(alpha(3, 10), 0);
    assert!(v.iter().enumerate().all(|(i, &b)| i % 4 == 3 || b == 0));
    for y in 0..22 {
        for x in 0..22 {
            assert_eq!(alpha(x, y), alpha(21 - x, y));
            assert_eq!(alpha(x, y), alpha(x, 21 - y));
        }
    }
}
