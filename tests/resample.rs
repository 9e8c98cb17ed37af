use reberzug::resample::{resize, ResampleError, ResizeAlgorithm};

fn solid(w: u32, h: u32, rgb: [u8; 3]) -> Vec<u8> {
    let mut v = Vec::new();
    for _ in 0..w * h {
        v.extend_from_slice(&rgb);
    }
    v
}

#[test]
fn output_has_requested_size() {
    let src = solid(10, 6, [1, 2, 3]);
    for alg in [ResizeAlgorithm::Nearest, ResizeAlgorithm::Box, ResizeAlgorithm::Bilinear, ResizeAlgorithm::Hamming,
                ResizeAlgorithm::CatmullRom, ResizeAlgorithm::Mitchell, ResizeAlgorithm::Lanczos3] {
        let out = resize(src.clone(), 10, 6, 7, 13, alg).unwrap();
        assert_eq!(out.len(), 3 * 7 * 13);
    }
}

#[test]
fn same_size_nearest_is_identity() {
    let src: Vec<u8> = (0..3 * 4 * 3).map(|i| (i * 7) as u8).collect();
    assert_eq!(resize(src.clone(), 4, 3, 4, 3, ResizeAlgorithm::Nearest).unwrap(), src);
}

#[test]
fn downscale_changes_bytes() {
    let src: Vec<u8> = (0..3 * 4 * 4).map(|i| (i * 5) as u8).collect();
    let out = resize(src.clone(), 4, 4, 2, 2, ResizeAlgorithm::Nearest).unwrap();
    assert_eq!(out.len(), 12);
    assert_ne!(out[..], src[..12]);
}

#[test]
fn zero_target_is_rejected() {
    let src = solid(2, 2, [9, 9, 9]);
    assert_eq!(resize(src.clone(), 2, 2, 0, 5, ResizeAlgorithm::Bilinear), Err(ResampleError::ZeroDimension));
    assert_eq!(resize(src, 2, 2, 5, 0, ResizeAlgorithm::Bilinear), Err(ResampleError::ZeroDimension));
}

#[test]
fn huge_target_is_rejected() {
    let src = solid(1, 1, [0, 0, 0]);
    assert_eq!(resize(src, 1, 1, 70000, 70000, ResizeAlgorithm::Nearest), Err(ResampleError::TooLarge));
}

#[test]
fn nearest_picks_source_pixels() {
    let src: Vec<u8> = (0..3 * 5 * 3).map(|i| (i * 11) as u8).collect();
    let out = resize(src.clone(), 5, 3, 3, 7, ResizeAlgorithm::Nearest).unwrap();
    for px in out.chunks(3) {
        assert!(src.chunks(3).any(|s| s == px));
    }
}

#[test]
fn wide_intermediate_is_rejected() {
    let src = solid(2, 70000, [1, 2, 3]);
    assert_eq!(resize(src, 2, 70000, 70000, 1, ResizeAlgorithm::Bilinear), Err(ResampleError::TooLarge));
}
