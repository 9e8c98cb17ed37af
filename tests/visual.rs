use reberzug::visual::{find_visual, ColorClass, ColorComponent, DepthInfo, ScreenInfo, VisualError, VisualInfo};
use reberzug::visual::component_from_mask;

fn screen() -> ScreenInfo {
    let tc = VisualInfo { visual_id: 33, class: ColorClass::TrueColor, red_mask: 0xff0000, green_mask: 0xff00, blue_mask: 0xff };
    let pc = VisualInfo { visual_id: 34, class: ColorClass::PseudoColor, red_mask: 0, green_mask: 0, blue_mask: 0 };
    ScreenInfo { allowed_depths: vec![DepthInfo { depth: 24, visuals: vec![tc, pc] }] }
}

#[test]
fn resolves_true_color_visual() {
    let r = find_visual(&screen(), 33).unwrap();
    assert_eq!(r.depth, 24);
    assert_eq!(r.info.visual_id, 33);
}

#[test]
fn rejects_unknown_visual() {
    assert_eq!(find_visual(&screen(), 99).unwrap_err(), VisualError::NotFound);
}

#[test]
fn rejects_palette_visual() {
    assert_eq!(find_visual(&screen(), 34).unwrap_err(), VisualError::UnsupportedClass);
}

#[test]
fn true_color_visual_gives_packed_layout() {
    let l = reberzug::visual::check_visual(&screen(), 33).unwrap();
    assert_eq!(l.red, ColorComponent { width: 8, shift: 16 });
    assert_eq!(l.green, ColorComponent { width: 8, shift: 8 });
    assert_eq!(l.blue, ColorComponent { width: 8, shift: 0 });
    assert_eq!(l.depth(), 24);
}

#[test]
fn check_visual_reports_lookup_errors() {
    assert_eq!(reberzug::visual::check_visual(&screen(), 99).unwrap_err(), VisualError::NotFound);
    assert_eq!(reberzug::visual::check_visual(&screen(), 34).unwrap_err(), VisualError::UnsupportedClass);
}

#[test]
fn gapped_mask_is_malformed() {
    let v = VisualInfo { visual_id: 40, class: ColorClass::TrueColor, red_mask: 0x0F0F00, green_mask: 0xF0, blue_mask: 0x0F };
    let s = ScreenInfo { allowed_depths: vec![DepthInfo { depth: 24, visuals: vec![v] }] };
    assert_eq!(reberzug::visual::check_visual(&s, 40).unwrap_err(), VisualError::MalformedMask);
}

#[test]
fn overlapping_masks_are_malformed() {
    let v = VisualInfo { visual_id: 41, class: ColorClass::DirectColor, red_mask: 0xFF00, green_mask: 0xFF0, blue_mask: 0xF };
    let s = ScreenInfo { allowed_depths: vec![DepthInfo { depth: 20, visuals: vec![v] }] };
    assert_eq!(reberzug::visual::check_visual(&s, 41).unwrap_err(), VisualError::MalformedMask);
}

#[test]
fn depth_must_match_bucket() {
    let v = VisualInfo { visual_id: 42, class: ColorClass::TrueColor, red_mask: 0xff0000, green_mask: 0xff00, blue_mask: 0xff };
    let s = ScreenInfo { allowed_depths: vec![DepthInfo { depth: 32, visuals: vec![v] }] };
    assert_eq!(reberzug::visual::check_visual(&s, 42).unwrap_err(), VisualError::DepthMismatch);
}

#[test]
fn masks_split_into_width_and_shift() {
    assert_eq!(component_from_mask(0xf800), Some(ColorComponent { width: 5, shift: 11 }));
    assert_eq!(component_from_mask(0x1), Some(ColorComponent { width: 1, shift: 0 }));
    assert_eq!(component_from_mask(0xffff0000), Some(ColorComponent { width: 16, shift: 16 }));
    assert_eq!(component_from_mask(0), None);
    assert_eq!(component_from_mask(0x1ffff), None);
    assert_eq!(component_from_mask(0b101), None);
}
