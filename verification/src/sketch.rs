//! The sketch contract: user rendering logic driven once per frame, and
//! the frame-local data snapshot it receives.

use vstd::prelude::*;

use crate::wgpu::controller::{Features, WGPUController};
use crate::wgpu::texture::TextureView;

verus! {

/// A pointer position in the aspect-corrected, centered coordinate space:
/// the exact rational pair `(x_num / denom, y_num / denom)`, where `denom`
/// is the surface's shorter pixel dimension. The shorter axis spans
/// [-1, 1]; the longer one proportionally beyond it.
#[derive(Clone, Copy, PartialEq, Eq, Structural, Debug)]
pub struct NormalizedPointer {
    pub x_num: i64,
    pub y_num: i64,
    pub denom: u32,
}

/// The views of a key list, for stating contracts over key contents.
pub open spec fn key_views(keys: Seq<String>) -> Seq<Seq<char>> {
    keys.map_values(|k: String| k@)
}

/// Whether the key list holds `key`.
pub open spec fn contains_key(keys: Seq<Seq<char>>, key: Seq<char>) -> bool {
    exists|i: int| 0 <= i < keys.len() && keys[i] == key
}

/// Everything a sketch learns about the frame being drawn: timing in
/// microseconds, the surface size, and the accumulated input state.
pub struct FrameData {
    /// Microseconds since the orchestrator started, at this frame.
    pub t: u64,
    /// How many frames were presented before this one.
    pub frame_index: usize,
    /// Microseconds since the previous frame.
    pub delta_t: u64,
    /// The surface's pixel dimensions, width then height.
    pub dimensions: [u32; 2],
    /// The pointer in normalized coordinates, absent while it is off the
    /// surface.
    pub mouse_pos: Option<NormalizedPointer>,
    /// Whether the primary button is held.
    pub mouse_down: bool,
    /// Scroll accumulated since the last presented frame, in the caller's
    /// scroll units.
    pub scroll_delta: (i64, i64),
    /// The keys currently held, each at most once.
    pub down_keys: Vec<String>,
}

impl FrameData {
    /// Whether `key` is currently held.
    pub fn is_key_down(&self, key: &str) -> (r: bool)
        ensures
            r == contains_key(key_views(self.down_keys@), key@),
    {
        let key_string = key.to_owned();
        let mut k: usize = 0;
        while k < self.down_keys.len()
            invariant
                k <= self.down_keys@.len(),
                key_string@ == key@,
                forall|i: int| 0 <= i < k ==> key_views(self.down_keys@)[i] != key@,
            decreases self.down_keys@.len() - k,
        {
            if self.down_keys[k] == key_string {
                proof {
                    assert(key_views(self.down_keys@)[k as int] == key@);
                }
                return true;
            }
            k = k + 1;
        }
        false
    }
}

/// The unit of user rendering logic. `init` runs once when the device
/// context first exists; `update` runs once per presented frame with
/// exclusive access to the sketch's state.
pub trait Sketch: Sized {
    /// Allocate the sketch's device resources.
    fn init(&mut self, wgpu: &mut WGPUController);

    /// Record one frame's work against the acquired surface view.
    fn update(&mut self, wgpu: &mut WGPUController, surface_view: TextureView, data: FrameData);

    /// The optional device features the sketch needs; none by default.
    fn required_features() -> Features {
        Features::empty()
    }

    /// Low-latency hook invoked as soon as a key goes down, with a fresh
    /// frame snapshot; a no-op by default.
    fn key_down(&mut self, _key: &str, _data: FrameData) {
    }
}

} // verus!
