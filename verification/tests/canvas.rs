use illuminator::Bitmap;
use illuminator::RawCanvas;

#[test]
fn create_exact_size_and_round_trip() {
    let mut b = Bitmap::with_size(7, 5).unwrap();
    assert_eq!(RawCanvas::width(&b), 7);
    assert_eq!(RawCanvas::height(&b), 5);
    assert_eq!(b.size(), 35);
    assert_eq!(b.data().len(), 35);
    for index in 0..35usize {
        let pixel = 0xff00_0000u32 | (index as u32);
        b.set(index, pixel);
        assert_eq!(b.get(index), pixel);
    }
    // A later write elsewhere leaves the first one in place.
    b.set(0, 0x00ff_ffff);
    b.set(34, 0x0012_3456);
    assert_eq!(b.get(0), 0x00ff_ffff);
    assert_eq!(b.get(34), 0x0012_3456);
}

#[test]
fn create_zeroes_the_buffer() {
    let b = Bitmap::with_size(4, 3).unwrap();
    for index in 0..12usize {
        assert_eq!(b.get(index), 0);
    }
}

#[test]
fn create_rejects_oversized_dimensions() {
    assert!(Bitmap::with_size(usize::MAX, 2).is_err());
    assert!(Bitmap::with_size(2, usize::MAX).is_err());
    // A dimension above what the presentation header carries is rejected even
    // with a zero area.
    if usize::BITS > 32 {
        assert!(Bitmap::with_size(i32::MAX as usize + 1, 0).is_err());
    }
}

#[test]
fn create_accepts_zero_area() {
    let b = Bitmap::with_size(0, 600).unwrap();
    assert_eq!(RawCanvas::width(&b), 0);
    assert_eq!(RawCanvas::height(&b), 600);
    assert_eq!(b.data().len(), 0);
}

#[test]
fn resize_reports_most_recent_dimensions() {
    let mut b = Bitmap::with_size(2, 2).unwrap();
    let sizes = [(10usize, 4usize), (1, 1), (800, 600), (3, 9)];
    for &(w, h) in sizes.iter() {
        b.resize(w, h).unwrap();
        assert_eq!(RawCanvas::width(&b), w);
        assert_eq!(RawCanvas::height(&b), h);
        assert_eq!(b.data().len(), w * h);
        // Every index below width * height stays accessible.
        for index in 0..w * h {
            b.set(index, 7);
            assert_eq!(b.get(index), 7);
        }
    }
}

#[test]
fn resize_failure_leaves_surface_unchanged() {
    let mut b = Bitmap::with_size(3, 2).unwrap();
    b.set(5, 99);
    assert!(b.resize(usize::MAX, usize::MAX).is_err());
    assert_eq!(RawCanvas::width(&b), 3);
    assert_eq!(RawCanvas::height(&b), 2);
    assert_eq!(b.get(5), 99);
}

#[test]
fn header_dimensions_match_requested_size() {
    let b = Bitmap::with_size(1280, 720).unwrap();
    // The i32 accessors feed the presentation header; they must carry the
    // exact dimensions, not the usize bit pattern.
    let w: i32 = b.width();
    let h: i32 = b.height();
    assert_eq!(w, 1280);
    assert_eq!(h, 720);
}
