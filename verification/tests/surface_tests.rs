use renderloop::gradient::generate;
use renderloop::surface::PixelSurface;

#[test]
fn it_works() {
}

#[test]
fn resize_then_generate_pixels() {
    let mut s = PixelSurface::new();
    assert!(s.resize(3, 2).is_ok());
    assert_eq!(s.width, 3);
    assert_eq!(s.height, 2);
    assert_eq!(s.buffer.len(), 3 * 2 * 4);
    generate(&mut s, 10, 250);
    for y in 0..2usize {
        for x in 0..3usize {
            let base = (y * 3 + x) * 4;
            assert_eq!(s.buffer[base], 0, "blue at ({}, {})", x, y);
            assert_eq!(s.buffer[base + 1], 0, "green at ({}, {})", x, y);
            assert_eq!(s.buffer[base + 2], ((x + 10) % 256) as u8, "red at ({}, {})", x, y);
            assert_eq!(s.buffer[base + 3], ((y + 250) % 256) as u8, "alpha at ({}, {})", x, y);
        }
    }
}

#[test]
fn generate_wraps_offsets() {
    let mut s = PixelSurface::new();
    assert!(s.resize(2, 1).is_ok());
    generate(&mut s, u32::MAX, 255);
    // red of pixel (0, 0) is (0 + (2^32 - 1)) mod 256 = 255; of (1, 0) it
    // wraps to (1 + (2^32 - 1)) mod 256 = 0.
    assert_eq!(s.buffer[2], 255);
    assert_eq!(s.buffer[6], 0);
    // alpha of row 0 is (0 + 255) mod 256 = 255.
    assert_eq!(s.buffer[3], 255);
}

#[test]
fn resize_zero_then_generate_writes_nothing() {
    let mut s = PixelSurface::new();
    assert!(s.resize(0, 0).is_ok());
    assert_eq!(s.buffer.len(), 0);
    generate(&mut s, 1, 2);
    assert_eq!(s.width, 0);
    assert_eq!(s.height, 0);
    assert_eq!(s.buffer.len(), 0);
}

#[test]
fn resize_zero_width_only() {
    let mut s = PixelSurface::new();
    assert!(s.resize(0, 77).is_ok());
    assert_eq!(s.buffer.len(), 0);
    generate(&mut s, 3, 4);
    assert_eq!(s.buffer.len(), 0);
}

#[test]
fn release_twice_is_harmless() {
    let mut s = PixelSurface::new();
    assert!(s.resize(4, 4).is_ok());
    s.release();
    assert_eq!(s.width, 0);
    assert_eq!(s.height, 0);
    assert_eq!(s.buffer.len(), 0);
    s.release();
    assert_eq!(s.width, 0);
    assert_eq!(s.height, 0);
    assert_eq!(s.buffer.len(), 0);
}

#[test]
fn resize_too_large_errs_and_empties() {
    let mut s = PixelSurface::new();
    assert!(s.resize(2, 2).is_ok());
    let r = s.resize(usize::MAX, 2);
    assert!(r.is_err());
    assert_eq!(s.width, 0);
    assert_eq!(s.height, 0);
    assert_eq!(s.buffer.len(), 0);
    assert!(s.invariant_holds());
}

#[test]
fn resize_overflow_in_total_size_errs() {
    let mut s = PixelSurface::new();
    // The stride fits, but stride * height does not.
    let r = s.resize(usize::MAX / 8, 16);
    assert!(r.is_err());
    assert_eq!(s.buffer.len(), 0);
}

#[test]
fn resize_commits_fresh_zeroed_region() {
    let mut s = PixelSurface::new();
    assert!(s.resize(2, 2).is_ok());
    generate(&mut s, 9, 9);
    assert!(s.buffer.iter().any(|b| *b != 0));
    assert!(s.resize(2, 2).is_ok());
    assert!(s.buffer.iter().all(|b| *b == 0));
}

#[test]
fn stride_is_width_times_four() {
    let mut s = PixelSurface::new();
    assert!(s.resize(7, 3).is_ok());
    assert_eq!(s.stride(), 28);
    assert!(s.invariant_holds());
}
