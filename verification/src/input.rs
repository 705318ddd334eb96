//! The per-frame input snapshot: captured once at frame start from the
//! platform's raw input state, then exposed read-only to the tick
//! callback.

use vstd::prelude::*;

verus! {

/// An immutable record of the input state at the top of a frame.  Key
/// codes and pointer coordinates are plain values handed over by the
/// platform layer.
#[derive(Clone, Copy, PartialEq, Eq, Debug)]
pub struct InputSnapshot {
    /// The key currently down; with several down in one frame, the last
    /// one reported wins.
    pub key: Option<u32>,
    /// Pointer position in logical pixels, if the platform reported one.
    pub mouse_pos: Option<(i32, i32)>,
    pub left_click: bool,
    pub shift: bool,
    pub control: bool,
    pub alt: bool,
}

/// Build the snapshot from the keys currently down (in report order), the
/// pointer position, the left button state and the modifier state.
pub fn capture_input(
    keys_down: &Vec<u32>,
    mouse_pos: Option<(i32, i32)>,
    left_down: bool,
    shift: bool,
    control: bool,
    alt: bool,
) -> (s: InputSnapshot)
    ensures
        s.key == if keys_down@.len() > 0 {
            Some(keys_down@.last())
        } else {
            None::<u32>
        },
        s.mouse_pos == mouse_pos,
        s.left_click == left_down,
        s.shift == shift,
        s.control == control,
        s.alt == alt,
{
    let mut key: Option<u32> = None;
    let n: usize = keys_down.len();
    let mut i: usize = 0;
    while i < n
        invariant
            i <= n,
            n == keys_down@.len(),
            key == if i > 0 {
                Some(keys_down@[i - 1])
            } else {
                None::<u32>
            },
        decreases n - i,
    {
        key = Some(keys_down[i]);
        i = i + 1;
    }
    InputSnapshot { key, mouse_pos, left_click: left_down, shift, control, alt }
}

} // verus!
