//! The backing buffer: an off-screen render target sized in device pixels.
//! It decouples logical resolution from display pixel density and hosts
//! the post-effect passes.  On resize it is recreated, never mutated in
//! place - and only when the device dimensions actually changed.

use vstd::prelude::*;

verus! {

/// An off-screen render target plus the device-pixel size it was built
/// for.  `fbo` and `texture` are opaque platform handles.
#[derive(Clone, Copy, PartialEq, Eq, Structural, Debug)]
pub struct Backing {
    pub width: u32,
    pub height: u32,
    pub fbo: u32,
    pub texture: u32,
}

/// Whether a resize event carrying these device dimensions obliges a
/// rebuild of the backing buffer.
pub open spec fn resize_needed(b: Backing, dims: (u32, u32)) -> bool {
    dims.0 != b.width || dims.1 != b.height
}

/// Decide what a resize event means for the backing buffer: request a
/// rebuild at the new dimensions, or nothing when they are unchanged (no
/// redundant GPU allocation).
pub fn plan_resize(b: &Backing, dims: (u32, u32)) -> (r: Option<(u32, u32)>)
    ensures
        r == if resize_needed(*b, dims) {
            Some(dims)
        } else {
            None::<(u32, u32)>
        },
{
    if dims.0 != b.width || dims.1 != b.height {
        Some(dims)
    } else {
        None
    }
}

/// Install a rebuilt backing buffer; the old handles are the platform's to
/// release.
pub fn apply_resize(b: &mut Backing, dims: (u32, u32), fbo: u32, texture: u32)
    ensures
        *final(b) == (Backing { width: dims.0, height: dims.1, fbo, texture }),
{
    b.width = dims.0;
    b.height = dims.1;
    b.fbo = fbo;
    b.texture = texture;
}

/// LAW (resize idempotence): a resize event that carries the backing
/// buffer's own dimensions requests no rebuild, so the buffer and its
/// handles are left in place.
pub proof fn lemma_resize_idempotent(b: Backing)
    ensures
        !resize_needed(b, (b.width, b.height)),
{
}

/// Device pixels: logical pixels scaled by the display's scale factor,
/// carried as a percentage so the computation stays in integers (125
/// means a factor of one and a quarter).
pub fn device_dimensions(logical: (u32, u32), scale_percent: u32) -> (r: (u32, u32))
    requires
        logical.0 as int * scale_percent as int / 100 <= u32::MAX as int,
        logical.1 as int * scale_percent as int / 100 <= u32::MAX as int,
    ensures
        r.0 as int == logical.0 as int * scale_percent as int / 100,
        r.1 as int == logical.1 as int * scale_percent as int / 100,
{
    let w: u64 = (logical.0 as u64) * (scale_percent as u64) / 100;
    let h: u64 = (logical.1 as u64) * (scale_percent as u64) / 100;
    (w as u32, h as u32)
}

} // verus!
