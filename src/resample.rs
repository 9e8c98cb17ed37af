use fast_image_resize as fr;
use fast_image_resize::{FilterType, ResizeAlg};
use std::num::NonZeroU32;
use vstd::prelude::*;

verus! {

/// The resampling algorithms a caller can choose from.
#[derive(Clone, Copy, Debug, PartialEq, Eq, Structural)]
pub enum ResizeAlgorithm {
    Nearest,
    Box,
    Bilinear,
    Hamming,
    CatmullRom,
    Mitchell,
    Lanczos3,
}

/// Why an image could not be resampled.
#[derive(Clone, Copy, Debug, PartialEq, Eq, Structural)]
pub enum ResampleError {
    /// The target width or height is zero.
    ZeroDimension,
    /// The target, or the intermediate image of `width` by `src_height` pixels, has more pixels
    /// than a `u32` counts.
    TooLarge,
}

#[verifier::external_type_specification]
#[verifier::external_body]
pub struct ExResizeAlg(ResizeAlg);

/// Relies on fast_image_resize's `ResizeAlg` and `FilterType`: one variant for each algorithm.
#[verifier::external_body]
fn resize_alg(alg: ResizeAlgorithm) -> (r: ResizeAlg) {
    match alg {
        ResizeAlgorithm::Nearest => ResizeAlg::Nearest,
        ResizeAlgorithm::Box => ResizeAlg::Convolution(FilterType::Box),
        ResizeAlgorithm::Bilinear => ResizeAlg::Convolution(FilterType::Bilinear),
        ResizeAlgorithm::Hamming => ResizeAlg::Convolution(FilterType::Hamming),
        ResizeAlgorithm::CatmullRom => ResizeAlg::Convolution(FilterType::CatmullRom),
        ResizeAlgorithm::Mitchell => ResizeAlg::Convolution(FilterType::Mitchell),
        ResizeAlgorithm::Lanczos3 => ResizeAlg::Convolution(FilterType::Lanczos3),
    }
}

/// The pixel at index `k` of a packed RGB8 buffer.
pub open spec fn pixel(buf: Seq<u8>, k: int) -> Seq<u8> {
    buf.subrange(3 * k, 3 * k + 3)
}

/// Every pixel of `out` (of `count` pixels) is one of the `src_count` pixels of `src`.
pub open spec fn pixels_drawn_from(out: Seq<u8>, count: int, src: Seq<u8>, src_count: int) -> bool {
    forall|k: int| 0 <= k < count ==> exists|m: int| 0 <= m < src_count && #[trigger] pixel(out, k) == pixel(src, m)
}

/// Relies on fast_image_resize: `Image::from_vec_u8` accepts a buffer of `3 * width * height`
/// bytes for `U8x3`, `Image::new` allocates `3 * width * height` bytes for the target,
/// `Resizer::resize` fills it, `resize_inner` copies the source when the sizes agree, and
/// `resample_nearest` copies a source pixel into each target pixel. A convolution's temporary
/// image is `width` wide and at most `src_height` tall, and its pixels are counted in `u32`.
#[verifier::external_body]
fn resize_rgb8(
    src: Vec<u8>,
    src_width: u32,
    src_height: u32,
    width: u32,
    height: u32,
    alg: ResizeAlgorithm,
) -> (r: Vec<u8>)
    requires
        src_width > 0 && src_height > 0 && width > 0 && height > 0,
        src_width * src_height <= u32::MAX,
        width * height <= u32::MAX,
        width * src_height <= u32::MAX,
        src@.len() == 3 * src_width * src_height,
    ensures
        r@.len() == 3 * width * height,
        src_width == width && src_height == height ==> r@ == src@,
        alg == ResizeAlgorithm::Nearest ==> pixels_drawn_from(r@, width * height, src@, src_width * src_height),
{
    let nz = |v: u32| NonZeroU32::new(v).unwrap();
    let src = fr::Image::from_vec_u8(nz(src_width), nz(src_height), src, fr::PixelType::U8x3).unwrap();
    let mut dst = fr::Image::new(nz(width), nz(height), fr::PixelType::U8x3);
    fr::Resizer::new(resize_alg(alg)).resize(&src.view(), &mut dst.view_mut()).unwrap();
    dst.into_vec()
}

/// Resamples an RGB8 image of `src_width` by `src_height` pixels to `width` by `height` pixels.
/// A zero target size is refused, never clamped.
pub fn resize(
    src: Vec<u8>,
    src_width: u32,
    src_height: u32,
    width: u32,
    height: u32,
    alg: ResizeAlgorithm,
) -> (r: Result<Vec<u8>, ResampleError>)
    requires
        src_width > 0 && src_height > 0,
        src_width * src_height <= u32::MAX,
        src@.len() == 3 * src_width * src_height,
    ensures
        (width == 0 || height == 0) <==> r == Err::<Vec<u8>, ResampleError>(ResampleError::ZeroDimension),
        r == Err::<Vec<u8>, ResampleError>(ResampleError::TooLarge) <==> (width > 0 && height > 0
            && (width * height > u32::MAX || width * src_height > u32::MAX)),
        r matches Ok(v) ==> v@.len() == 3 * width * height,
        r matches Ok(v) ==> (src_width == width && src_height == height ==> v@ == src@),
        r matches Ok(v) ==> (alg == ResizeAlgorithm::Nearest ==> pixels_drawn_from(v@, width * height, src@, src_width * src_height)),
{
    if width == 0 || height == 0 {
        return Err(ResampleError::ZeroDimension);
    }
    assert(width as u64 * height as u64 <= u64::MAX) by (nonlinear_arith)
        requires width <= u32::MAX, height <= u32::MAX;
    assert(width as u64 * src_height as u64 <= u64::MAX) by (nonlinear_arith)
        requires width <= u32::MAX, src_height <= u32::MAX;
    if width as u64 * height as u64 > u32::MAX as u64 || width as u64 * src_height as u64 > u32::MAX as u64 {
        return Err(ResampleError::TooLarge);
    }
    Ok(resize_rgb8(src, src_width, src_height, width, height, alg))
}

/// Nearest-neighbour resampling of a single-colour image gives that colour everywhere.
pub proof fn lemma_nearest_keeps_solid_color(
    src: Vec<u8>,
    src_width: u32,
    src_height: u32,
    width: u32,
    height: u32,
    color: Seq<u8>,
    r: Result<Vec<u8>, ResampleError>,
)
    requires
        src_width > 0 && src_height > 0,
        src_width * src_height <= u32::MAX,
        src@.len() == 3 * src_width * src_height,
        forall|m: int| 0 <= m < src_width * src_height ==> #[trigger] pixel(src@, m) == color,
        call_ensures(resize, (src, src_width, src_height, width, height, ResizeAlgorithm::Nearest), r),
    ensures
        r matches Ok(v) ==> forall|k: int| 0 <= k < width * height ==> #[trigger] pixel(v@, k) == color,
{
    if let Ok(v) = r {
        assert forall|k: int| 0 <= k < width * height implies #[trigger] pixel(v@, k) == color by {
            let m = choose|m: int| 0 <= m < src_width * src_height && pixel(v@, k) == pixel(src@, m);
        }
    }
}

/// Resampling to the size the image already has gives back the same bytes.
pub proof fn lemma_same_size_is_identity(
    src: Vec<u8>,
    width: u32,
    height: u32,
    alg: ResizeAlgorithm,
    r: Result<Vec<u8>, ResampleError>,
)
    requires
        width > 0 && height > 0,
        width * height <= u32::MAX,
        src@.len() == 3 * width * height,
        call_ensures(resize, (src, width, height, width, height, alg), r),
    ensures
        r matches Ok(v) && v@ == src@,
{
    match r {
        Ok(v) => {},
        Err(e) => {
            assert(e == ResampleError::ZeroDimension || e == ResampleError::TooLarge);
        },
    }
}

} // verus!
