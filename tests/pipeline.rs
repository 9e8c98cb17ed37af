use reberzug::pipeline::{window_placement, RenderError, RenderState, Step, WindowPlacement};
use reberzug::reencode::{reencode_rgb8, ServerFormat};
use reberzug::resample::{resize, ResizeAlgorithm};
use reberzug::visual::{check_visual, ColorClass, DepthInfo, ScreenInfo, VisualInfo};

const ORDER: [Step; 10] = [
    Step::Resample,
    Step::ResolveVisual,
    Step::Reencode,
    Step::CreatePixmap,
    Step::CreateGc,
    Step::PutImage,
    Step::CreateWindow,
    Step::SetTitle,
    Step::MapWindow,
    Step::Flush,
];

#[test]
fn zero_size_fails_before_any_request() {
    assert_eq!(RenderState::start(0, 10), Err(RenderError::ZeroDimension));
    assert_eq!(RenderState::start(10, 0), Err(RenderError::ZeroDimension));
    assert_eq!(window_placement(0, 0, 0, 4), Err(RenderError::ZeroDimension));
}

#[test]
fn placement_must_fit_protocol_fields() {
    assert_eq!(window_placement(3, 4, 50, 25), Ok(WindowPlacement { x: 3, y: 4, width: 50, height: 25 }));
    assert_eq!(window_placement(40000, 0, 5, 5), Err(RenderError::OutOfRange));
    assert_eq!(window_placement(0, 0, 70000, 5), Err(RenderError::OutOfRange));
}

#[test]
fn failure_stops_further_requests() {
    let mut s = RenderState::start(4, 4).unwrap();
    assert_eq!(s.next_step(true), Some(Step::Resample));
    assert_eq!(s.next_step(true), Some(Step::ResolveVisual));
    assert_eq!(s.next_step(true), Some(Step::Reencode));
    assert_eq!(s.next_step(true), Some(Step::CreatePixmap));
    assert_eq!(s.next_step(false), None);
    assert_eq!(s.next_step(true), None);
    assert!(!s.completed());
}

#[test]
fn red_image_end_to_end() {
    let red: Vec<u8> = [255u8, 0, 0].iter().cycle().take(3 * 100 * 50).cloned().collect();
    let img = resize(red, 100, 50, 50, 25, ResizeAlgorithm::Nearest).unwrap();
    assert_eq!(img, [255u8, 0, 0].repeat(1250));

    let v = VisualInfo { visual_id: 0x21, class: ColorClass::TrueColor, red_mask: 0xff0000, green_mask: 0xff00, blue_mask: 0xff };
    let screen = ScreenInfo { allowed_depths: vec![DepthInfo { depth: 24, visuals: vec![v] }] };
    let layout = check_visual(&screen, 0x21).unwrap();
    let f = ServerFormat { bits_per_pixel: 24, scanline_pad: 8, byte_order: 1 };
    let out = reencode_rgb8(&img, 50, 25, layout, f).unwrap();
    assert_eq!(out.len(), 3 * 50 * 25);
    for px in out.chunks(3) {
        let p = (px[0] as u32) << 16 | (px[1] as u32) << 8 | px[2] as u32;
        assert_eq!(((p >> 16) & 0xff, (p >> 8) & 0xff, p & 0xff), (255, 0, 0));
    }

    let mut s = RenderState::start(50, 25).unwrap();
    let mut issued = Vec::new();
    while let Some(q) = s.next_step(true) {
        issued.push(q);
    }
    assert_eq!(issued, ORDER.to_vec());
    assert!(s.completed());
}
