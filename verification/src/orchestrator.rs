//! The frame orchestrator: the per-window state machine that accumulates
//! input between frames, times each frame, and decides what the event
//! loop should do next. The window system and the clock stay outside; the
//! loop hands events and timestamps in and performs the actions handed
//! back.

use vstd::prelude::*;

use crate::sketch::{contains_key, key_views, FrameData, NormalizedPointer};
use crate::wgpu::controller::{SurfaceConfiguration, WGPUController};

verus! {

/// The shorter of the two surface dimensions.
pub open spec fn spec_min_dimension(w: int, h: int) -> int {
    if w <= h {
        w
    } else {
        h
    }
}

/// The numerator of a normalized pointer coordinate over denominator
/// `min(width, height)`: for a pixel position p along an axis of extent e,
/// the normalized value is (e/m) * (2*p/e - 1) = (2*p - e) / m.
pub open spec fn spec_norm_num(p: int, extent: int) -> int {
    2 * p - extent
}

/// Pixel coordinates the transform accepts without overflowing; far wider
/// than any real surface.
pub open spec fn pointer_in_range(p: int) -> bool {
    -0x2000_0000_0000_0000 <= p <= 0x2000_0000_0000_0000
}

/// The pointer-normalization transform, exactly: maps pixel position
/// (px, py) on a width-by-height surface to the rational pair
/// ((2*px - width) / m, (2*py - height) / m) with m the shorter dimension.
/// The shorter axis lands in [-1, 1]; the longer one proportionally
/// beyond it; the center of the surface lands at the origin.
pub fn normalized_pointer(px: i64, py: i64, width: u32, height: u32) -> (r: NormalizedPointer)
    requires
        width >= 1,
        height >= 1,
        pointer_in_range(px as int),
        pointer_in_range(py as int),
    ensures
        r.x_num == spec_norm_num(px as int, width as int),
        r.y_num == spec_norm_num(py as int, height as int),
        r.denom == spec_min_dimension(width as int, height as int),
{
    let m = if width <= height {
        width
    } else {
        height
    };
    NormalizedPointer { x_num: 2 * px - width as i64, y_num: 2 * py - height as i64, denom: m }
}

/// The transform maps pixel (0, 0) to (-width/m, -height/m): both
/// numerators are the negated extents over the shared denominator m.
pub proof fn lemma_pointer_transform_origin(width: int, height: int)
    requires
        width >= 1,
        height >= 1,
    ensures
        spec_norm_num(0, width) == -width,
        spec_norm_num(0, height) == -height,
        spec_min_dimension(width, height) >= 1,
{
}

/// The transform maps the surface's center to the origin: wherever
/// 2*px == width and 2*py == height, both numerators are zero.
pub proof fn lemma_pointer_transform_center(px: int, py: int, width: int, height: int)
    requires
        width >= 1,
        height >= 1,
        2 * px == width,
        2 * py == height,
    ensures
        spec_norm_num(px, width) == 0,
        spec_norm_num(py, height) == 0,
{
}

/// On a square surface the transform is the affine identity onto
/// [-1, 1] squared: the denominator is the side itself, and every pixel
/// position on the surface yields a numerator between -side and side,
/// reaching -1 at 0 and 1 at the far edge.
pub proof fn lemma_pointer_transform_square_identity(p: int, side: int)
    requires
        side >= 1,
        0 <= p <= side,
    ensures
        spec_min_dimension(side, side) == side,
        -side <= spec_norm_num(p, side) <= side,
        p == 0 ==> spec_norm_num(p, side) == -side,
        p == side ==> spec_norm_num(p, side) == side,
{
}

/// Addition on the scroll accumulator: exact while the sum fits an i64,
/// clamped at the ends of the range otherwise.
pub open spec fn saturating_add_i64(a: int, b: int) -> int {
    if a + b > i64::MAX {
        i64::MAX as int
    } else if a + b < i64::MIN {
        i64::MIN as int
    } else {
        a + b
    }
}

/// A sequence of scroll deltas folded onto a starting accumulator value
/// with saturating addition, oldest delta first.
pub open spec fn fold_scroll(start: int, deltas: Seq<int>) -> int
    decreases deltas.len(),
{
    if deltas.len() == 0 {
        start
    } else {
        saturating_add_i64(fold_scroll(start, deltas.drop_last()), deltas.last())
    }
}

/// The plain sum of the same deltas, without saturation.
pub open spec fn sum_scroll(start: int, deltas: Seq<int>) -> int
    decreases deltas.len(),
{
    if deltas.len() == 0 {
        start
    } else {
        sum_scroll(start, deltas.drop_last()) + deltas.last()
    }
}

/// Scroll accumulates across any number of scroll events between two
/// presented frames: along any chain of states linked by `scrolled` — the
/// transition every `note_scroll` call makes — the final accumulator is
/// the saturated fold of all the deltas, componentwise, over the starting
/// value. Together with `frame_finished`, which resets the accumulator to
/// exactly (0, 0) on present, this is the scroll-accumulation law.
pub proof fn lemma_scroll_accumulates_across_events(
    states: Seq<FrameOrchestrator>,
    deltas: Seq<(int, int)>,
)
    requires
        states.len() == deltas.len() + 1,
        forall|i: int|
            0 <= i < deltas.len() ==> scrolled(
                states[i],
                states[i + 1],
                (#[trigger] deltas[i]).0,
                deltas[i].1,
            ),
    ensures
        states.last().scroll_delta.0 == fold_scroll(
            states[0].scroll_delta.0 as int,
            deltas.map_values(|d: (int, int)| d.0),
        ),
        states.last().scroll_delta.1 == fold_scroll(
            states[0].scroll_delta.1 as int,
            deltas.map_values(|d: (int, int)| d.1),
        ),
    decreases deltas.len(),
{
    let firsts = deltas.map_values(|d: (int, int)| d.0);
    let seconds = deltas.map_values(|d: (int, int)| d.1);
    if deltas.len() == 0 {
        assert(states.last() == states[0]);
    } else {
        let n = deltas.len() as int;
        let sub_states = states.drop_last();
        let sub_deltas = deltas.drop_last();
        assert forall|i: int|
            0 <= i < sub_deltas.len() implies scrolled(
            sub_states[i],
            sub_states[i + 1],
            (#[trigger] sub_deltas[i]).0,
            sub_deltas[i].1,
        ) by {
            assert(sub_states[i] == states[i]);
            assert(sub_states[i + 1] == states[i + 1]);
            assert(sub_deltas[i] == deltas[i]);
        }
        lemma_scroll_accumulates_across_events(sub_states, sub_deltas);
        assert(sub_deltas.map_values(|d: (int, int)| d.0) =~= firsts.drop_last());
        assert(sub_deltas.map_values(|d: (int, int)| d.1) =~= seconds.drop_last());
        assert(sub_states.last() == states[n - 1]);
        assert(scrolled(states[n - 1], states[n], deltas[n - 1].0, deltas[n - 1].1));
        assert(firsts.last() == deltas[n - 1].0);
        assert(seconds.last() == deltas[n - 1].1);
        assert(states.last() == states[n]);
    }
}

/// While every running total stays within the i64 range, the saturated
/// fold is the plain sum: accumulation is exact addition.
pub proof fn lemma_scroll_fold_is_sum_in_range(start: int, deltas: Seq<int>)
    requires
        forall|i: int|
            0 <= i <= deltas.len() ==> i64::MIN <= #[trigger] sum_scroll(start, deltas.take(i))
                <= i64::MAX,
    ensures
        fold_scroll(start, deltas) == sum_scroll(start, deltas),
    decreases deltas.len(),
{
    if deltas.len() > 0 {
        let sub = deltas.drop_last();
        assert forall|i: int|
            0 <= i <= sub.len() implies i64::MIN <= #[trigger] sum_scroll(start, sub.take(i))
            <= i64::MAX by {
            assert(sub.take(i) =~= deltas.take(i));
        }
        lemma_scroll_fold_is_sum_in_range(start, sub);
        assert(deltas.take(deltas.len() as int) =~= deltas);
        assert(sub.take(sub.len() as int) =~= sub);
    }
}

/// Why the device failed to hand out the next presentable image.
#[derive(Clone, Copy, PartialEq, Eq, Structural, Debug)]
pub enum AcquireError {
    /// The surface was lost and must be reconfigured.
    Lost,
    Timeout,
    Outdated,
    OutOfMemory,
}

/// How the frame loop answers a failed acquisition.
#[derive(Clone, Copy, PartialEq, Eq, Structural, Debug)]
pub enum AcquireRecovery {
    /// Reconfigure the surface at the window's current size and retry on
    /// the next frame, presenting nothing now.
    ReconfigureAndRetry,
    /// Unrecoverable: end the process with a diagnostic.
    Fatal,
}

/// The recovery policy for a failed acquisition: a lost surface is the
/// sole recoverable transient failure; every other error is fatal.
pub fn acquire_error_recovery(error: AcquireError) -> (r: AcquireRecovery)
    ensures
        error is Lost <==> r == AcquireRecovery::ReconfigureAndRetry,
        !(error is Lost) <==> r == AcquireRecovery::Fatal,
{
    match error {
        AcquireError::Lost => AcquireRecovery::ReconfigureAndRetry,
        _ => AcquireRecovery::Fatal,
    }
}

/// What the event loop should do after handing an event in.
#[derive(Clone, Copy, PartialEq, Eq, Structural, Debug)]
pub enum EventAction {
    /// Nothing beyond what the orchestrator already recorded.
    Continue,
    /// Leave the event loop.
    Exit,
    /// Acquire the next surface image, run the sketch's update with a
    /// fresh frame snapshot, present, and report back.
    RenderFrame,
    /// Invoke the sketch's key hook with a fresh frame snapshot.
    KeyCallback,
}

/// A window event, as the orchestrator consumes it. Pixel positions are
/// whole pixels; scroll deltas are in the caller's scroll units; the
/// redraw request carries the clock reading in microseconds.
pub enum WindowEvent {
    CloseRequested,
    Resized { width: u32, height: u32 },
    RedrawRequested { now: u64 },
    CursorMoved { x: i64, y: i64 },
    CursorLeft,
    MouseInput { pressed: bool },
    MouseWheel { dx: i64, dy: i64 },
    KeyPressed { key: String },
    KeyReleased { key: String },
    /// Anything else the window system delivers; ignored.
    Other,
}

/// The per-window orchestrator state: accumulated input, frame timing
/// and the recorded surface size.
pub struct FrameOrchestrator {
    /// The pointer's pixel position, absent while it is off the surface.
    pub mouse_pos: Option<(i64, i64)>,
    /// Whether the primary button is held.
    pub mouse_down: bool,
    /// How many frames have been presented so far.
    pub frame_index: usize,
    /// The clock reading at the start of the current frame, microseconds.
    pub last_frame_timestamp: u64,
    /// Microseconds between the previous frame and the current one.
    pub frame_delta: u64,
    /// The surface size last reported by a resize, width then height.
    pub surface_pixel_dimensions: [u32; 2],
    /// Scroll accumulated since the last presented frame.
    pub scroll_delta: (i64, i64),
    /// The keys currently held, each at most once.
    pub down_keys: Vec<String>,
}

impl FrameOrchestrator {
    /// Well-formedness: held keys are distinct, and a present pointer
    /// position is within the transform's range.
    pub open spec fn wf(self) -> bool {
        &&& (forall|i: int, j: int|
            0 <= i < j < self.down_keys@.len() ==> key_views(self.down_keys@)[i] != key_views(
                self.down_keys@,
            )[j])
        &&& (self.mouse_pos matches Some(p) ==> pointer_in_range(p.0 as int) && pointer_in_range(
            p.1 as int,
        ))
    }
}

/// Frame timing carried over unchanged.
pub open spec fn same_frame_timing(a: FrameOrchestrator, b: FrameOrchestrator) -> bool {
    &&& a.frame_index == b.frame_index
    &&& a.last_frame_timestamp == b.last_frame_timestamp
    &&& a.frame_delta == b.frame_delta
}

/// Surface size carried over unchanged.
pub open spec fn same_dimensions(a: FrameOrchestrator, b: FrameOrchestrator) -> bool {
    a.surface_pixel_dimensions@ == b.surface_pixel_dimensions@
}

/// Held keys carried over unchanged.
pub open spec fn same_keys(a: FrameOrchestrator, b: FrameOrchestrator) -> bool {
    key_views(a.down_keys@) == key_views(b.down_keys@)
}

/// Pointer position and button carried over unchanged.
pub open spec fn same_pointer(a: FrameOrchestrator, b: FrameOrchestrator) -> bool {
    &&& a.mouse_pos == b.mouse_pos
    &&& a.mouse_down == b.mouse_down
}

/// Scroll accumulator carried over unchanged.
pub open spec fn same_scroll(a: FrameOrchestrator, b: FrameOrchestrator) -> bool {
    a.scroll_delta == b.scroll_delta
}

/// The pointer moved to pixel (x, y); nothing else changed.
pub open spec fn pointer_moved(
    pre: FrameOrchestrator,
    post: FrameOrchestrator,
    x: i64,
    y: i64,
) -> bool {
    &&& post.mouse_pos == Some((x, y))
    &&& post.mouse_down == pre.mouse_down
    &&& same_scroll(pre, post)
    &&& same_keys(pre, post)
    &&& same_frame_timing(pre, post)
    &&& same_dimensions(pre, post)
}

/// The pointer left the surface; nothing else changed.
pub open spec fn pointer_left(pre: FrameOrchestrator, post: FrameOrchestrator) -> bool {
    &&& post.mouse_pos is None
    &&& post.mouse_down == pre.mouse_down
    &&& same_scroll(pre, post)
    &&& same_keys(pre, post)
    &&& same_frame_timing(pre, post)
    &&& same_dimensions(pre, post)
}

/// The primary button state became `pressed`; nothing else changed.
pub open spec fn button_set(
    pre: FrameOrchestrator,
    post: FrameOrchestrator,
    pressed: bool,
) -> bool {
    &&& post.mouse_down == pressed
    &&& post.mouse_pos == pre.mouse_pos
    &&& same_scroll(pre, post)
    &&& same_keys(pre, post)
    &&& same_frame_timing(pre, post)
    &&& same_dimensions(pre, post)
}

/// A scroll event added (dx, dy) to the accumulator, saturating; nothing
/// else changed.
pub open spec fn scrolled(
    pre: FrameOrchestrator,
    post: FrameOrchestrator,
    dx: int,
    dy: int,
) -> bool {
    &&& post.scroll_delta.0 == saturating_add_i64(pre.scroll_delta.0 as int, dx)
    &&& post.scroll_delta.1 == saturating_add_i64(pre.scroll_delta.1 as int, dy)
    &&& same_pointer(pre, post)
    &&& same_keys(pre, post)
    &&& same_frame_timing(pre, post)
    &&& same_dimensions(pre, post)
}

/// The key went down: it joins the held set if absent, at the end;
/// nothing else changed.
pub open spec fn key_pressed_in(
    pre: FrameOrchestrator,
    post: FrameOrchestrator,
    key: Seq<char>,
) -> bool {
    &&& if contains_key(key_views(pre.down_keys@), key) {
        key_views(post.down_keys@) == key_views(pre.down_keys@)
    } else {
        key_views(post.down_keys@) == key_views(pre.down_keys@).push(key)
    }
    &&& same_pointer(pre, post)
    &&& same_scroll(pre, post)
    &&& same_frame_timing(pre, post)
    &&& same_dimensions(pre, post)
}

/// The key went up: its occurrence leaves the held set; nothing else
/// changed.
pub open spec fn key_released_from(
    pre: FrameOrchestrator,
    post: FrameOrchestrator,
    key: Seq<char>,
) -> bool {
    &&& if contains_key(key_views(pre.down_keys@), key) {
        exists|i: int|
            0 <= i < key_views(pre.down_keys@).len() && key_views(pre.down_keys@)[i] == key
                && key_views(post.down_keys@) == key_views(pre.down_keys@).remove(i)
    } else {
        key_views(post.down_keys@) == key_views(pre.down_keys@)
    }
    &&& same_pointer(pre, post)
    &&& same_scroll(pre, post)
    &&& same_frame_timing(pre, post)
    &&& same_dimensions(pre, post)
}

/// A frame began at clock reading `now`: the timestamp advances to it and
/// the delta becomes the time since the previous frame; the frame index
/// and all accumulated input stay put.
pub open spec fn frame_begun(pre: FrameOrchestrator, post: FrameOrchestrator, now: int) -> bool {
    &&& post.last_frame_timestamp == now
    &&& post.frame_delta == now - pre.last_frame_timestamp
    &&& post.frame_index == pre.frame_index
    &&& same_pointer(pre, post)
    &&& same_scroll(pre, post)
    &&& same_keys(pre, post)
    &&& same_dimensions(pre, post)
}

/// A frame was presented: the frame index advances by exactly one and
/// the scroll accumulator resets to (0, 0); nothing else changes.
pub open spec fn frame_finished(pre: FrameOrchestrator, post: FrameOrchestrator) -> bool {
    &&& post.frame_index == pre.frame_index + 1
    &&& post.scroll_delta.0 == 0
    &&& post.scroll_delta.1 == 0
    &&& post.last_frame_timestamp == pre.last_frame_timestamp
    &&& post.frame_delta == pre.frame_delta
    &&& same_pointer(pre, post)
    &&& same_keys(pre, post)
    &&& same_dimensions(pre, post)
}

/// A resize was recorded: the dimensions become (width, height) even
/// when zero; everything else, the frame index included, stays put.
pub open spec fn dimensions_recorded(
    pre: FrameOrchestrator,
    post: FrameOrchestrator,
    width: u32,
    height: u32,
) -> bool {
    &&& post.surface_pixel_dimensions@ == seq![width, height]
    &&& same_pointer(pre, post)
    &&& same_scroll(pre, post)
    &&& same_keys(pre, post)
    &&& same_frame_timing(pre, post)
}

/// What a resize does to the controller: with both dimensions nonzero
/// the configuration takes the new size and is applied to the surface
/// once; with either dimension zero nothing at all happens to it.
pub open spec fn reconfigured(
    pre: WGPUController,
    post: WGPUController,
    width: u32,
    height: u32,
) -> bool {
    if width >= 1 && height >= 1 {
        &&& post.config == (SurfaceConfiguration { width, height, ..pre.config })
        &&& post.surface.configured == Some(post.config)
        &&& post.surface.configure_count@ == pre.surface.configure_count@ + 1
        &&& post.device == pre.device
        &&& post.queue == pre.queue
    } else {
        post == pre
    }
}

impl FrameOrchestrator {
    /// The state before any event: pointer at pixel (0, 0), no button, no
    /// frames presented, zero timing, a zero-sized surface, no scroll and
    /// no held keys.
    pub fn new() -> (r: FrameOrchestrator)
        ensures
            r.wf(),
            r.mouse_pos == Some((0i64, 0i64)),
            !r.mouse_down,
            r.frame_index == 0,
            r.last_frame_timestamp == 0,
            r.frame_delta == 0,
            r.surface_pixel_dimensions@ == seq![0u32, 0u32],
            r.scroll_delta.0 == 0,
            r.scroll_delta.1 == 0,
            r.down_keys@.len() == 0,
    {
        FrameOrchestrator {
            mouse_pos: Some((0, 0)),
            mouse_down: false,
            frame_index: 0,
            last_frame_timestamp: 0,
            frame_delta: 0,
            surface_pixel_dimensions: [0, 0],
            scroll_delta: (0, 0),
            down_keys: Vec::new(),
        }
    }

    /// Record a resize. The surface is reconfigured only when both
    /// dimensions are nonzero — a minimized window reports 0 by 0 and
    /// must not be configured — but the reported size is recorded either
    /// way. Idempotent, and safe to call on every resize event.
    pub fn resize(&mut self, wgpu: &mut WGPUController, width: u32, height: u32)
        requires
            old(self).wf(),
        ensures
            final(self).wf(),
            dimensions_recorded(*old(self), *final(self), width, height),
            reconfigured(*old(wgpu), *final(wgpu), width, height),
    {
        if width > 0 && height > 0 {
            wgpu.config.width = width;
            wgpu.config.height = height;
            wgpu.surface.configure(&wgpu.device, &wgpu.config);
        }
        self.surface_pixel_dimensions = [width, height];
    }

    /// Start a frame at clock reading `now`, which may not run backwards.
    pub fn begin_frame(&mut self, now: u64)
        requires
            old(self).wf(),
            now >= old(self).last_frame_timestamp,
        ensures
            final(self).wf(),
            frame_begun(*old(self), *final(self), now as int),
    {
        self.frame_delta = now - self.last_frame_timestamp;
        self.last_frame_timestamp = now;
    }

    /// The frame snapshot handed to the sketch: current timing, size and
    /// accumulated input, with the pointer put through the normalization
    /// transform. Meaningful only on a surface that presented an image,
    /// so both dimensions must be nonzero.
    pub fn frame_data(&self) -> (fd: FrameData)
        requires
            self.wf(),
            self.surface_pixel_dimensions@[0] >= 1,
            self.surface_pixel_dimensions@[1] >= 1,
        ensures
            fd.t == self.last_frame_timestamp,
            fd.delta_t == self.frame_delta,
            fd.frame_index == self.frame_index,
            fd.dimensions@ == self.surface_pixel_dimensions@,
            fd.mouse_down == self.mouse_down,
            fd.scroll_delta == self.scroll_delta,
            key_views(fd.down_keys@) == key_views(self.down_keys@),
            self.mouse_pos is None ==> fd.mouse_pos is None,
            self.mouse_pos matches Some(p) ==> (fd.mouse_pos matches Some(np)
                && np.x_num == spec_norm_num(p.0 as int, self.surface_pixel_dimensions@[0] as int)
                && np.y_num == spec_norm_num(p.1 as int, self.surface_pixel_dimensions@[1] as int)
                && np.denom == spec_min_dimension(
                self.surface_pixel_dimensions@[0] as int,
                self.surface_pixel_dimensions@[1] as int,
            )),
    {
        let width = self.surface_pixel_dimensions[0];
        let height = self.surface_pixel_dimensions[1];
        let mouse_pos = match self.mouse_pos {
            Some(p) => Some(normalized_pointer(p.0, p.1, width, height)),
            None => None,
        };
        FrameData {
            t: self.last_frame_timestamp,
            frame_index: self.frame_index,
            delta_t: self.frame_delta,
            dimensions: [width, height],
            mouse_pos,
            mouse_down: self.mouse_down,
            scroll_delta: self.scroll_delta,
            down_keys: clone_keys(&self.down_keys),
        }
    }

    /// A frame was presented: count it and reset the scroll accumulator
    /// to exactly (0, 0). This is the only place the frame index moves.
    pub fn finish_frame(&mut self)
        requires
            old(self).wf(),
            old(self).frame_index < usize::MAX,
        ensures
            final(self).wf(),
            frame_finished(*old(self), *final(self)),
    {
        self.frame_index = self.frame_index + 1;
        self.scroll_delta = (0, 0);
    }

    /// The pointer moved to pixel (x, y).
    pub fn note_pointer_moved(&mut self, x: i64, y: i64)
        requires
            old(self).wf(),
            pointer_in_range(x as int),
            pointer_in_range(y as int),
        ensures
            final(self).wf(),
            pointer_moved(*old(self), *final(self), x, y),
    {
        self.mouse_pos = Some((x, y));
    }

    /// The pointer left the surface.
    pub fn note_pointer_left(&mut self)
        requires
            old(self).wf(),
        ensures
            final(self).wf(),
            pointer_left(*old(self), *final(self)),
    {
        self.mouse_pos = None;
    }

    /// The primary button went down or up.
    pub fn note_mouse_button(&mut self, pressed: bool)
        requires
            old(self).wf(),
        ensures
            final(self).wf(),
            button_set(*old(self), *final(self), pressed),
    {
        self.mouse_down = pressed;
    }

    /// A scroll event arrived: it accumulates onto whatever scrolled
    /// since the last presented frame, saturating at the range's ends.
    pub fn note_scroll(&mut self, dx: i64, dy: i64)
        requires
            old(self).wf(),
        ensures
            final(self).wf(),
            scrolled(*old(self), *final(self), dx as int, dy as int),
    {
        self.scroll_delta = (
            saturating_add(self.scroll_delta.0, dx),
            saturating_add(self.scroll_delta.1, dy),
        );
    }

    /// Whether `key` is currently held.
    pub fn has_key(&self, key: &str) -> (r: bool)
        ensures
            r == contains_key(key_views(self.down_keys@), key@),
    {
        let key_string = key.to_owned();
        let mut k: usize = 0;
        while k < self.down_keys.len()
            invariant
                k <= self.down_keys@.len(),
                key_string@ == key@,
                forall|i: int| 0 <= i < k ==> key_views(self.down_keys@)[i] != key@,
            decreases self.down_keys@.len() - k,
        {
            if self.down_keys[k] == key_string {
                proof {
                    assert(key_views(self.down_keys@)[k as int] == key@);
                }
                return true;
            }
            k = k + 1;
        }
        false
    }

    /// The key went down: insert it if absent.
    pub fn note_key_pressed(&mut self, key: &str)
        requires
            old(self).wf(),
        ensures
            final(self).wf(),
            key_pressed_in(*old(self), *final(self), key@),
    {
        if !self.has_key(key) {
            self.down_keys.push(key.to_owned());
            proof {
                assert(key_views(self.down_keys@) =~= key_views(old(self).down_keys@).push(key@));
            }
        }
    }

    /// The key went up: remove it if present.
    pub fn note_key_released(&mut self, key: &str)
        requires
            old(self).wf(),
        ensures
            final(self).wf(),
            key_released_from(*old(self), *final(self), key@),
    {
        let key_string = key.to_owned();
        let mut k: usize = 0;
        while k < self.down_keys.len()
            invariant
                old(self).wf(),
                k <= self.down_keys@.len(),
                key_string@ == key@,
                *self == *old(self),
                forall|i: int| 0 <= i < k ==> key_views(self.down_keys@)[i] != key@,
            decreases self.down_keys@.len() - k,
        {
            if self.down_keys[k] == key_string {
                proof {
                    assert(key_views(self.down_keys@)[k as int] == key@);
                }
                self.down_keys.remove(k);
                proof {
                    let pre = key_views(old(self).down_keys@);
                    let post = key_views(self.down_keys@);
                    old(self).down_keys@.remove_ensures(k as int);
                    pre.remove_ensures(k as int);
                    assert(post =~= pre.remove(k as int));
                    assert(pre[k as int] == key@);
                    assert forall|i: int, j: int| 0 <= i < j < post.len() implies post[i]
                        != post[j] by {
                        if j < k {
                        } else if i < k {
                            assert(post[j] == pre[j + 1]);
                        } else {
                            assert(post[i] == pre[i + 1]);
                            assert(post[j] == pre[j + 1]);
                        }
                    }
                }
                return ;
            }
            k = k + 1;
        }
    }

    /// Consume one window event: update the accumulated state as the
    /// event dictates and say what the event loop should do next. A
    /// redraw request starts the frame clock and asks the loop to render;
    /// a key press asks it to fire the sketch's key hook at once.
    pub fn handle_window_event(&mut self, wgpu: &mut WGPUController, event: WindowEvent) -> (r:
        EventAction)
        requires
            old(self).wf(),
            (event matches WindowEvent::RedrawRequested { now } ==> now >= old(
                self,
            ).last_frame_timestamp),
            (event matches WindowEvent::CursorMoved { x, y } ==> pointer_in_range(x as int)
                && pointer_in_range(y as int)),
        ensures
            final(self).wf(),
            match event {
                WindowEvent::CloseRequested => r == EventAction::Exit && *final(self) == *old(self)
                    && *final(wgpu) == *old(wgpu),
                WindowEvent::Resized { width, height } => r == EventAction::Continue
                    && dimensions_recorded(*old(self), *final(self), width, height)
                    && reconfigured(*old(wgpu), *final(wgpu), width, height),
                WindowEvent::RedrawRequested { now } => r == EventAction::RenderFrame
                    && frame_begun(*old(self), *final(self), now as int) && *final(wgpu) == *old(
                    wgpu,
                ),
                WindowEvent::CursorMoved { x, y } => r == EventAction::Continue && pointer_moved(
                    *old(self),
                    *final(self),
                    x,
                    y,
                ) && *final(wgpu) == *old(wgpu),
                WindowEvent::CursorLeft => r == EventAction::Continue && pointer_left(
                    *old(self),
                    *final(self),
                ) && *final(wgpu) == *old(wgpu),
                WindowEvent::MouseInput { pressed } => r == EventAction::Continue && button_set(
                    *old(self),
                    *final(self),
                    pressed,
                ) && *final(wgpu) == *old(wgpu),
                WindowEvent::MouseWheel { dx, dy } => r == EventAction::Continue && scrolled(
                    *old(self),
                    *final(self),
                    dx as int,
                    dy as int,
                ) && *final(wgpu) == *old(wgpu),
                WindowEvent::KeyPressed { key } => r == EventAction::KeyCallback && key_pressed_in(
                    *old(self),
                    *final(self),
                    key@,
                ) && *final(wgpu) == *old(wgpu),
                WindowEvent::KeyReleased { key } => r == EventAction::Continue
                    && key_released_from(*old(self), *final(self), key@) && *final(wgpu) == *old(
                    wgpu,
                ),
                WindowEvent::Other => r == EventAction::Continue && *final(self) == *old(self)
                    && *final(wgpu) == *old(wgpu),
            },
    {
        match event {
            WindowEvent::CloseRequested => EventAction::Exit,
            WindowEvent::Resized { width, height } => {
                self.resize(wgpu, width, height);
                EventAction::Continue
            },
            WindowEvent::RedrawRequested { now } => {
                self.begin_frame(now);
                EventAction::RenderFrame
            },
            WindowEvent::CursorMoved { x, y } => {
                self.note_pointer_moved(x, y);
                EventAction::Continue
            },
            WindowEvent::CursorLeft => {
                self.note_pointer_left();
                EventAction::Continue
            },
            WindowEvent::MouseInput { pressed } => {
                self.note_mouse_button(pressed);
                EventAction::Continue
            },
            WindowEvent::MouseWheel { dx, dy } => {
                self.note_scroll(dx, dy);
                EventAction::Continue
            },
            WindowEvent::KeyPressed { key } => {
                self.note_key_pressed(key.as_str());
                EventAction::KeyCallback
            },
            WindowEvent::KeyReleased { key } => {
                self.note_key_released(key.as_str());
                EventAction::Continue
            },
            WindowEvent::Other => EventAction::Continue,
        }
    }
}

/// Exact saturating addition on i64.
fn saturating_add(a: i64, b: i64) -> (r: i64)
    ensures
        r == saturating_add_i64(a as int, b as int),
{
    if b > 0 && a > i64::MAX - b {
        i64::MAX
    } else if b < 0 && a < i64::MIN - b {
        i64::MIN
    } else {
        a + b
    }
}

/// An equal copy of the held-key list.
fn clone_keys(keys: &Vec<String>) -> (r: Vec<String>)
    ensures
        key_views(r@) == key_views(keys@),
{
    let mut r: Vec<String> = Vec::new();
    let mut k: usize = 0;
    while k < keys.len()
        invariant
            k <= keys@.len(),
            r@.len() == k,
            forall|i: int| 0 <= i < k ==> key_views(r@)[i] == key_views(keys@)[i],
        decreases keys@.len() - k,
    {
        r.push(keys[k].clone());
        k = k + 1;
    }
    proof {
        assert(key_views(r@) =~= key_views(keys@));
    }
    r
}

} // verus!
