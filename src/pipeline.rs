use crate::reencode::{reencode_rgb8, ReencodeError, ServerFormat};
use crate::resample::{lemma_nearest_keeps_solid_color, pixel, resize, ResampleError, ResizeAlgorithm};
use crate::visual::PixelLayout;
use vstd::prelude::*;

verus! {

/// The steps of a render, in the order they run: three local stages on the decoded image, then
/// the server requests that put it on screen.
#[derive(Clone, Copy, Debug, PartialEq, Eq, Structural)]
pub enum Step {
    Resample,
    ResolveVisual,
    Reencode,
    CreatePixmap,
    CreateGc,
    PutImage,
    CreateWindow,
    SetTitle,
    MapWindow,
    Flush,
}

/// Why a render was refused before any request.
#[derive(Clone, Copy, Debug, PartialEq, Eq, Structural)]
pub enum RenderError {
    ZeroDimension,
    OutOfRange,
}

/// Where the overlay window goes inside its parent, and its size.
#[derive(Clone, Copy, Debug, PartialEq, Eq, Structural)]
pub struct WindowPlacement {
    pub x: i16,
    pub y: i16,
    pub width: u16,
    pub height: u16,
}

/// The placement of a `width` by `height` window at `(x, y)`; each value must fit the protocol's
/// field, and the size must not be zero.
pub fn window_placement(x: u16, y: u16, width: u32, height: u32) -> (r: Result<WindowPlacement, RenderError>)
    ensures
        (width == 0 || height == 0) ==> r == Err::<WindowPlacement, RenderError>(RenderError::ZeroDimension),
        width > 0 && height > 0 ==> (r is Ok <==> (x <= i16::MAX && y <= i16::MAX && width <= u16::MAX && height <= u16::MAX)),
        width > 0 && height > 0 && r is Err ==> r == Err::<WindowPlacement, RenderError>(RenderError::OutOfRange),
        r matches Ok(p) ==> p.x == x && p.y == y && p.width == width && p.height == height,
{
    if width == 0 || height == 0 {
        Err(RenderError::ZeroDimension)
    } else if x <= 32767 && y <= 32767 && width <= 65535 && height <= 65535 {
        Ok(WindowPlacement { x: x as i16, y: y as i16, width: width as u16, height: height as u16 })
    } else {
        Err(RenderError::OutOfRange)
    }
}

pub const STEP_COUNT: usize = 10;

/// Whether a step sends a request to the server.
pub open spec fn is_server_request(s: Step) -> bool {
    !(s == Step::Resample || s == Step::ResolveVisual || s == Step::Reencode)
}

pub open spec fn step_order() -> Seq<Step> {
    seq![
        Step::Resample,
        Step::ResolveVisual,
        Step::Reencode,
        Step::CreatePixmap,
        Step::CreateGc,
        Step::PutImage,
        Step::CreateWindow,
        Step::SetTitle,
        Step::MapWindow,
        Step::Flush,
    ]
}

/// Progress of one render: how many steps were started, and whether one of them failed.
#[derive(Clone, Copy, Debug, PartialEq, Eq, Structural)]
pub struct RenderState {
    pub issued: usize,
    pub failed: bool,
}

impl RenderState {
    pub open spec fn wf(self) -> bool {
        self.issued <= STEP_COUNT
    }

    /// One step: the outcome of the step started last decides whether the next one comes.
    pub open spec fn step_spec(self, last_ok: bool) -> (RenderState, Option<Step>) {
        if self.failed || (self.issued > 0 && !last_ok) {
            (RenderState { issued: self.issued, failed: true }, None)
        } else if self.issued < STEP_COUNT {
            (RenderState { issued: (self.issued + 1) as usize, failed: false }, Some(step_order()[self.issued as int]))
        } else {
            (self, None)
        }
    }

    /// Starts a render of a decoded `width` by `height` image. A zero size is refused here,
    /// before any stage runs and before any request reaches the server.
    pub fn start(width: u32, height: u32) -> (r: Result<RenderState, RenderError>)
        ensures
            (width == 0 || height == 0) <==> r is Err,
            r matches Err(e) ==> e == RenderError::ZeroDimension,
            r matches Ok(s) ==> s == (RenderState { issued: 0, failed: false }),
    {
        if width == 0 || height == 0 {
            Err(RenderError::ZeroDimension)
        } else {
            Ok(RenderState { issued: 0, failed: false })
        }
    }

    /// Records whether the last step succeeded and returns the next one to run, if any.
    pub fn next_step(&mut self, last_ok: bool) -> (r: Option<Step>)
        requires
            old(self).wf(),
        ensures
            (*final(self), r) == old(self).step_spec(last_ok),
            final(self).wf(),
    {
        if self.failed || (self.issued > 0 && !last_ok) {
            self.failed = true;
            None
        } else if self.issued < STEP_COUNT {
            let q = match self.issued {
                0 => Step::Resample,
                1 => Step::ResolveVisual,
                2 => Step::Reencode,
                3 => Step::CreatePixmap,
                4 => Step::CreateGc,
                5 => Step::PutImage,
                6 => Step::CreateWindow,
                7 => Step::SetTitle,
                8 => Step::MapWindow,
                _ => Step::Flush,
            };
            self.issued = self.issued + 1;
            Some(q)
        } else {
            None
        }
    }

    /// Whether every step ran and none failed.
    pub fn completed(&self) -> (r: bool)
        ensures
            r == (self.issued == STEP_COUNT && !self.failed),
    {
        self.issued == STEP_COUNT && !self.failed
    }
}

/// The steps run when the outcomes `outcomes` are reported one step at a time from `s`.
pub open spec fn steps_of(s: RenderState, outcomes: Seq<bool>) -> Seq<Step>
    decreases outcomes.len(),
{
    if outcomes.len() == 0 {
        seq![]
    } else {
        let (n, q) = s.step_spec(outcomes[0]);
        let rest = steps_of(n, outcomes.drop_first());
        match q {
            Some(q) => seq![q] + rest,
            None => rest,
        }
    }
}

/// When every step succeeds, the steps still to come from `issued` on are the rest of the fixed
/// order, each once.
pub proof fn lemma_successful_tail(issued: usize, outcomes: Seq<bool>)
    requires
        issued <= STEP_COUNT,
        outcomes.len() >= STEP_COUNT - issued,
        forall|k: int| 0 <= k < outcomes.len() ==> outcomes[k],
    ensures
        steps_of(RenderState { issued, failed: false }, outcomes)
            == step_order().subrange(issued as int, STEP_COUNT as int),
    decreases outcomes.len(),
{
    let s = RenderState { issued, failed: false };
    if outcomes.len() == 0 {
        assert(step_order().subrange(issued as int, STEP_COUNT as int) =~= seq![]);
    } else if issued < STEP_COUNT {
        lemma_successful_tail((issued + 1) as usize, outcomes.drop_first());
        assert(step_order().subrange(issued as int, STEP_COUNT as int)
            =~= seq![step_order()[issued as int]] + step_order().subrange(issued + 1, STEP_COUNT as int));
    } else {
        lemma_successful_tail(issued, outcomes.drop_first());
    }
}

/// A render whose steps all succeed resamples, resolves the visual and reencodes, then issues
/// create-pixmap, create-gc, put-image, create-window, the title change, map-window and flush,
/// each exactly once and in that order.
pub proof fn lemma_successful_render(outcomes: Seq<bool>)
    requires
        outcomes.len() >= STEP_COUNT,
        forall|k: int| 0 <= k < outcomes.len() ==> outcomes[k],
    ensures
        steps_of(RenderState { issued: 0, failed: false }, outcomes) == step_order(),
{
    lemma_successful_tail(0, outcomes);
    assert(step_order().subrange(0, STEP_COUNT as int) =~= step_order());
}

/// The three local stages come first; every later step is a server request.
pub proof fn lemma_local_stages_first()
    ensures
        forall|k: int| 0 <= k < 3 ==> !is_server_request(#[trigger] step_order()[k]),
        forall|k: int| 3 <= k < STEP_COUNT ==> is_server_request(#[trigger] step_order()[k]),
{
}

/// After a failure no further step runs, whatever is reported next.
pub proof fn lemma_failure_stops(s: RenderState, outcomes: Seq<bool>)
    requires
        s.failed,
    ensures
        steps_of(s, outcomes) == Seq::<Step>::empty(),
    decreases outcomes.len(),
{
    if outcomes.len() > 0 {
        lemma_failure_stops(RenderState { issued: s.issued, failed: true }, outcomes.drop_first());
    }
}

/// A failed step ends the render: the call that reports it returns no step and marks the render
/// failed.
pub proof fn lemma_failed_step_ends(s: RenderState)
    requires
        s.issued > 0,
    ensures
        s.step_spec(false).1 is None,
        s.step_spec(false).0.failed,
{
}

/// A single-colour image resampled with nearest neighbour and reencoded for a server whose
/// visual is the packed RGB layout, in a 24-bit byte-padded most-significant-first format, gives
/// put-image bytes in which every pixel is that colour.
pub proof fn lemma_solid_image_bytes(
    src: Vec<u8>,
    src_width: u32,
    src_height: u32,
    width: u32,
    height: u32,
    color: Seq<u8>,
    resized: Result<Vec<u8>, ResampleError>,
    encoded: Result<Vec<u8>, ReencodeError>,
)
    requires
        src_width > 0 && src_height > 0,
        src_width * src_height <= u32::MAX,
        src@.len() == 3 * src_width * src_height,
        width <= u16::MAX && height <= u16::MAX,
        forall|m: int| 0 <= m < src_width * src_height ==> #[trigger] pixel(src@, m) == color,
        call_ensures(resize, (src, src_width, src_height, width, height, ResizeAlgorithm::Nearest), resized),
        resized matches Ok(v) ==> call_ensures(
            reencode_rgb8,
            (&v, width as u16, height as u16, PixelLayout::canonical(),
                ServerFormat { bits_per_pixel: 24, scanline_pad: 8, byte_order: 1 }),
            encoded,
        ),
    ensures
        resized is Ok ==> (encoded matches Ok(e) && forall|k: int| 0 <= k < width * height ==> #[trigger] pixel(e@, k) == color),
{
    lemma_nearest_keeps_solid_color(src, src_width, src_height, width, height, color, resized);
    if let Ok(v) = resized {
        match encoded {
            Ok(e) => {
                assert(e@ == v@);
                assert forall|k: int| 0 <= k < width * height implies #[trigger] pixel(e@, k) == color by {
                    assert(pixel(v@, k) == color);
                }
            },
            Err(_) => {},
        }
    }
}

} // verus!
