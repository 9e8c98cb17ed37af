use vstd::prelude::*;

verus! {

/// Colour class of a visual, as the server reports it.
#[derive(Clone, Copy, Debug, PartialEq, Eq, Structural)]
pub enum ColorClass {
    StaticGray,
    GrayScale,
    StaticColor,
    PseudoColor,
    TrueColor,
    DirectColor,
}

/// One visual type as listed in the server's setup.
#[derive(Clone, Copy, Debug)]
pub struct VisualInfo {
    pub visual_id: u32,
    pub class: ColorClass,
    pub red_mask: u32,
    pub green_mask: u32,
    pub blue_mask: u32,
}

/// A depth bucket: a depth and the visuals the server offers at it.
#[derive(Clone, Debug)]
pub struct DepthInfo {
    pub depth: u8,
    pub visuals: Vec<VisualInfo>,
}

/// The screen description: its depth buckets, in server order.
#[derive(Clone, Debug)]
pub struct ScreenInfo {
    pub allowed_depths: Vec<DepthInfo>,
}

/// Why a visual could not be resolved to a pixel layout.
#[derive(Clone, Copy, Debug, PartialEq, Eq, Structural)]
pub enum VisualError {
    NotFound,
    UnsupportedClass,
    MalformedMask,
    DepthMismatch,
}

/// One colour component of a pixel: `width` bits starting at bit `shift`.
#[derive(Clone, Copy, Debug, PartialEq, Eq, Structural)]
pub struct ColorComponent {
    pub width: u8,
    pub shift: u8,
}

/// The set bits of a component `width` wide placed at `shift`.
pub open spec fn component_mask(width: u32, shift: u32) -> u32 {
    (((1u32 << width) - 1u32) as u32) << shift
}

pub open spec fn valid_component(width: u32, shift: u32) -> bool {
    1 <= width <= 16 && width + shift <= 32
}

/// `m` is one non-empty run of at most 16 consecutive set bits.
pub open spec fn mask_valid(m: u32) -> bool {
    exists|w: u32, s: u32| valid_component(w, s) && #[trigger] component_mask(w, s) == m
}

/// A mask determines its component: two valid components with the same mask are equal.
pub proof fn lemma_component_mask_unique(w1: u32, s1: u32, w2: u32, s2: u32)
    requires
        valid_component(w1, s1),
        valid_component(w2, s2),
        component_mask(w1, s1) == component_mask(w2, s2),
    ensures
        w1 == w2 && s1 == s2,
{
    assert(w1 == w2 && s1 == s2) by (bit_vector)
        requires
            1 <= w1 <= 16 && w1 + s1 <= 32,
            1 <= w2 <= 16 && w2 + s2 <= 32,
            (((1u32 << w1) - 1u32) as u32) << s1 == (((1u32 << w2) - 1u32) as u32) << s2;
}

/// The layout a visual's masks describe is unique.
pub proof fn lemma_layout_unique(l1: PixelLayout, l2: PixelLayout, v: VisualInfo)
    requires
        l1.wf() && l2.wf(),
        describes(l1, v) && describes(l2, v),
    ensures
        l1 == l2,
{
    lemma_component_mask_unique(l1.red.width as u32, l1.red.shift as u32, l2.red.width as u32, l2.red.shift as u32);
    lemma_component_mask_unique(l1.green.width as u32, l1.green.shift as u32, l2.green.width as u32, l2.green.shift as u32);
    lemma_component_mask_unique(l1.blue.width as u32, l1.blue.shift as u32, l2.blue.width as u32, l2.blue.shift as u32);
}

/// Masks `0xff0000`, `0xff00` and `0xff` describe the packed RGB layout, of depth 24, and no
/// other.
pub proof fn lemma_packed_masks(l: PixelLayout, v: VisualInfo)
    requires
        v.red_mask == 0xff0000 && v.green_mask == 0xff00 && v.blue_mask == 0xff,
        l.wf() && describes(l, v),
    ensures
        l == PixelLayout::canonical(),
        l.depth_spec() == 24,
{
    let c = PixelLayout::canonical();
    assert(component_mask(8, 16) == 0xff0000u32) by (bit_vector);
    assert(component_mask(8, 8) == 0xff00u32) by (bit_vector);
    assert(component_mask(8, 0) == 0xffu32) by (bit_vector);
    assert(component_mask(8, 16) & component_mask(8, 8) == 0) by (bit_vector);
    assert(component_mask(8, 16) & component_mask(8, 0) == 0) by (bit_vector);
    assert(component_mask(8, 8) & component_mask(8, 0) == 0) by (bit_vector);
    lemma_layout_unique(l, c, v);
}

impl ColorComponent {
    pub open spec fn wf(self) -> bool {
        valid_component(self.width as u32, self.shift as u32)
    }

    pub open spec fn mask(self) -> u32 {
        component_mask(self.width as u32, self.shift as u32)
    }
}

/// Where the red, green and blue components sit in a pixel value.
#[derive(Clone, Copy, Debug, PartialEq, Eq, Structural)]
pub struct PixelLayout {
    pub red: ColorComponent,
    pub green: ColorComponent,
    pub blue: ColorComponent,
}

impl PixelLayout {
    /// Each component is well formed and no two share a bit.
    pub open spec fn wf(self) -> bool {
        &&& self.red.wf() && self.green.wf() && self.blue.wf()
        &&& self.red.mask() & self.green.mask() == 0
        &&& self.red.mask() & self.blue.mask() == 0
        &&& self.green.mask() & self.blue.mask() == 0
    }

    /// Significant bits per pixel: the sum of the component widths.
    pub open spec fn depth_spec(self) -> int {
        self.red.width + self.green.width + self.blue.width
    }

    pub fn depth(&self) -> (r: u8)
        requires
            self.wf(),
        ensures
            r == self.depth_spec(),
    {
        self.red.width + self.green.width + self.blue.width
    }

    /// The layout of a packed RGB triple: red in bits 16 to 23, green in 8 to 15, blue in 0 to 7.
    pub open spec fn canonical() -> PixelLayout {
        PixelLayout {
            red: ColorComponent { width: 8, shift: 16 },
            green: ColorComponent { width: 8, shift: 8 },
            blue: ColorComponent { width: 8, shift: 0 },
        }
    }

    pub fn rgb8() -> (r: PixelLayout)
        ensures
            r == PixelLayout::canonical(),
            r.wf(),
    {
        assert(component_mask(8, 16) & component_mask(8, 8) == 0) by (bit_vector);
        assert(component_mask(8, 16) & component_mask(8, 0) == 0) by (bit_vector);
        assert(component_mask(8, 8) & component_mask(8, 0) == 0) by (bit_vector);
        PixelLayout {
            red: ColorComponent { width: 8, shift: 16 },
            green: ColorComponent { width: 8, shift: 8 },
            blue: ColorComponent { width: 8, shift: 0 },
        }
    }
}

/// The layout's components are exactly the visual's three masks.
pub open spec fn describes(l: PixelLayout, v: VisualInfo) -> bool {
    l.red.mask() == v.red_mask && l.green.mask() == v.green_mask && l.blue.mask() == v.blue_mask
}

/// Every mask is a valid run of bits and no two masks share a bit.
pub open spec fn masks_usable(v: VisualInfo) -> bool {
    &&& mask_valid(v.red_mask) && mask_valid(v.green_mask) && mask_valid(v.blue_mask)
    &&& v.red_mask & v.green_mask == 0
    &&& v.red_mask & v.blue_mask == 0
    &&& v.green_mask & v.blue_mask == 0
}

/// Splits a mask into its width (the number of set bits) and its shift (the trailing zeros).
pub fn component_from_mask(mask: u32) -> (r: Option<ColorComponent>)
    ensures
        r is Some <==> mask_valid(mask),
        r matches Some(c) ==> c.wf() && c.mask() == mask,
{
    let mut s: u8 = 0;
    while s < 32
        invariant
            s <= 32,
            forall|w: u32, t: u32| #![trigger component_mask(w, t)]
                valid_component(w, t) && t < s ==> component_mask(w, t) != mask,
        decreases 32 - s,
    {
        let mut w: u8 = 1;
        while w <= 16 && w + s <= 32
            invariant
                s < 32,
                1 <= w <= 17,
                forall|w2: u32, t: u32| #![trigger component_mask(w2, t)]
                    valid_component(w2, t) && (t < s || (t == s && w2 < w)) ==> component_mask(w2, t) != mask,
            decreases 17 - w,
        {
            let wu: u32 = w as u32;
            let su: u32 = s as u32;
            assert(1u32 << wu >= 1u32) by (bit_vector)
                requires wu <= 16;
            let m: u32 = ((1u32 << wu) - 1u32) << su;
            assert(m == component_mask(wu, su));
            if m == mask {
                return Some(ColorComponent { width: w, shift: s });
            }
            w += 1;
        }
        s += 1;
    }
    None
}

/// The pixel layout that a visual's masks describe, if they are usable.
pub fn layout_from_visual(v: &VisualInfo) -> (r: Option<PixelLayout>)
    ensures
        r is Some <==> masks_usable(*v),
        r matches Some(l) ==> l.wf() && describes(l, *v),
{
    let red = component_from_mask(v.red_mask);
    let green = component_from_mask(v.green_mask);
    let blue = component_from_mask(v.blue_mask);
    match (red, green, blue) {
        (Some(red), Some(green), Some(blue)) => {
            if v.red_mask & v.green_mask == 0 && v.red_mask & v.blue_mask == 0
                && v.green_mask & v.blue_mask == 0 {
                Some(PixelLayout { red, green, blue })
            } else {
                None
            }
        },
        _ => None,
    }
}

pub open spec fn class_supported(c: ColorClass) -> bool {
    c == ColorClass::TrueColor || c == ColorClass::DirectColor
}

/// The visual has id `id` and sits at index `j` of bucket `i`.
pub open spec fn located_at(s: ScreenInfo, id: u32, i: int, j: int) -> bool {
    0 <= i < s.allowed_depths@.len() && 0 <= j < s.allowed_depths@[i].visuals@.len()
        && s.allowed_depths@[i].visuals@[j].visual_id == id
}

pub open spec fn has_visual(s: ScreenInfo, id: u32) -> bool {
    exists|i: int, j: int| located_at(s, id, i, j)
}

/// `(i, j)` is the first match: no earlier bucket, and no earlier visual in bucket `i`, has `id`.
pub open spec fn first_match(s: ScreenInfo, id: u32, i: int, j: int) -> bool {
    &&& located_at(s, id, i, j)
    &&& forall|a: int, b: int| #![auto] located_at(s, id, a, b) ==> i < a || (i == a && j <= b)
}

/// A visual found for a request: its bucket's depth and its description.
#[derive(Clone, Copy, Debug)]
pub struct ResolvedVisual {
    pub depth: u8,
    pub info: VisualInfo,
}

/// Finds the first visual with identifier `id`, walking the depth buckets in order, and
/// accepts it only when its colour class lets pixels be written as red, green and blue.
pub fn find_visual(screen: &ScreenInfo, id: u32) -> (r: Result<ResolvedVisual, VisualError>)
    ensures
        !has_visual(*screen, id) ==> r == Err::<ResolvedVisual, VisualError>(VisualError::NotFound),
        has_visual(*screen, id) ==> exists|i: int, j: int| {
            &&& #[trigger] first_match(*screen, id, i, j)
            &&& class_supported(screen.allowed_depths@[i].visuals@[j].class) ==> r == Ok::<ResolvedVisual, VisualError>(ResolvedVisual { depth: screen.allowed_depths@[i].depth, info: screen.allowed_depths@[i].visuals@[j] })
            &&& !class_supported(screen.allowed_depths@[i].visuals@[j].class) ==> r == Err::<ResolvedVisual, VisualError>(VisualError::UnsupportedClass)
        },
{
    let n = screen.allowed_depths.len();
    let mut i: usize = 0;
    while i < n
        invariant
            n == screen.allowed_depths@.len(),
            i <= n,
            forall|a: int, b: int| #![auto] located_at(*screen, id, a, b) ==> a >= i,
        decreases n - i,
    {
        let bucket = &screen.allowed_depths[i];
        let m = bucket.visuals.len();
        let mut j: usize = 0;
        while j < m
            invariant
                n == screen.allowed_depths@.len(),
                i < n,
                *bucket == screen.allowed_depths@[i as int],
                m == bucket.visuals@.len(),
                j <= m,
                forall|a: int, b: int| #![auto] located_at(*screen, id, a, b) ==> a > i || (a == i && b >= j),
            decreases m - j,
        {
            let v = bucket.visuals[j];
            if v.visual_id == id {
                assert(first_match(*screen, id, i as int, j as int));
                if v.class == ColorClass::TrueColor || v.class == ColorClass::DirectColor {
                    return Ok(ResolvedVisual { depth: bucket.depth, info: v });
                } else {
                    return Err(VisualError::UnsupportedClass);
                }
            }
            j += 1;
        }
        i += 1;
    }
    Err(VisualError::NotFound)
}

/// Resolves visual `id` to the pixel layout its masks describe. The first visual with that id
/// is used; it must be true or direct colour, its masks must be usable, and the layout's depth
/// must equal the depth of the bucket it was found in.
pub fn check_visual(screen: &ScreenInfo, id: u32) -> (r: Result<PixelLayout, VisualError>)
    ensures
        !has_visual(*screen, id) ==> r == Err::<PixelLayout, VisualError>(VisualError::NotFound),
        has_visual(*screen, id) ==> exists|i: int, j: int| {
            &&& #[trigger] first_match(*screen, id, i, j)
            &&& visual_outcome(screen.allowed_depths@[i].depth, screen.allowed_depths@[i].visuals@[j], r)
        },
{
    let found = find_visual(screen, id);
    match found {
        Err(e) => Err(e),
        Ok(rv) => {
            match layout_from_visual(&rv.info) {
                None => Err(VisualError::MalformedMask),
                Some(l) => {
                    if l.depth() == rv.depth {
                        Ok(l)
                    } else {
                        Err(VisualError::DepthMismatch)
                    }
                },
            }
        },
    }
}

/// What resolving the visual `v`, found in a bucket of depth `depth`, gives.
pub open spec fn visual_outcome(depth: u8, v: VisualInfo, r: Result<PixelLayout, VisualError>) -> bool {
    if !class_supported(v.class) {
        r == Err::<PixelLayout, VisualError>(VisualError::UnsupportedClass)
    } else if !masks_usable(v) {
        r == Err::<PixelLayout, VisualError>(VisualError::MalformedMask)
    } else {
        match r {
            Ok(l) => l.wf() && describes(l, v) && l.depth_spec() == depth,
            Err(e) => e == VisualError::DepthMismatch && exists|l: PixelLayout|
                #[trigger] describes(l, v) && l.wf() && l.depth_spec() != depth,
        }
    }
}

} // verus!
