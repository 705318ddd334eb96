//! Initialization decisions: the hint set accepted at startup, the
//! fullscreen/centering plan computed from monitor metadata, and the
//! frame-pacing conversion.  The platform layer supplies monitor data and
//! carries the plan out; every decision itself is made here.

use crate::error::InitError;
use vstd::prelude::*;

verus! {

/// A window icon: raw RGBA pixels and their dimensions.
pub struct IconData {
    pub pixels: Vec<u8>,
    pub width: u32,
    pub height: u32,
}

/// The graphics-API feature selection.
#[derive(Clone, Copy, PartialEq, Eq, Structural, Debug)]
pub struct GlRequest {
    pub major: u32,
    pub minor: u32,
    pub core_profile: bool,
}

/// The configuration options recognized at initialization.
pub struct InitHints {
    pub allow_resize: bool,
    pub vsync: bool,
    pub fullscreen: bool,
    pub centered: bool,
    pub srgb: bool,
    pub icon: Option<IconData>,
    /// Frames-per-second pacing target; `None` leaves pacing to vsync.
    pub frame_sleep_fps: Option<u32>,
    pub resize_scaling: bool,
    pub gl: GlRequest,
}

impl Default for InitHints {
    /// A resizable, vsynced, windowed, sRGB context with no icon, no
    /// pacing target and no resize scaling.
    fn default() -> (h: InitHints)
        ensures
            h.allow_resize == true,
            h.vsync == true,
            h.fullscreen == false,
            h.centered == false,
            h.srgb == true,
            h.icon is None,
            h.frame_sleep_fps is None,
            h.resize_scaling == false,
            h.gl == (GlRequest { major: 3, minor: 2, core_profile: true }),
    {
        InitHints {
            allow_resize: true,
            vsync: true,
            fullscreen: false,
            centered: false,
            srgb: true,
            icon: None,
            frame_sleep_fps: None,
            resize_scaling: false,
            gl: GlRequest { major: 3, minor: 2, core_profile: true },
        }
    }
}

/// What the platform layer must do with the window it created.
#[derive(Clone, Copy, PartialEq, Eq, Debug)]
pub struct WindowPlan {
    pub fullscreen: bool,
    /// Where to place the window's outer corner, when centering applies.
    pub position: Option<(u32, u32)>,
}

/// Where a centered window's outer corner goes: half the margin between
/// the monitor and the window, best-effort - skipped without monitor
/// metadata, and skipped when the window outgrows the monitor.
pub open spec fn centered_position_spec(
    centered: bool,
    monitor: Option<(u32, u32)>,
    outer: (u32, u32),
) -> Option<(u32, u32)> {
    match monitor {
        Some(m) => if centered && outer.0 <= m.0 && outer.1 <= m.1 {
            Some((((m.0 - outer.0) / 2) as u32, ((m.1 - outer.1) / 2) as u32))
        } else {
            None
        },
        None => None,
    }
}

/// Decide fullscreen and placement once, from the hints and the monitor
/// metadata the platform enumerated.  A fullscreen request with no
/// enumerable monitor fails before any window exists.
pub fn plan_window_setup(
    hints: &InitHints,
    monitor_count: usize,
    current_monitor: Option<(u32, u32)>,
    outer_size: (u32, u32),
) -> (r: Result<WindowPlan, InitError>)
    ensures
        hints.fullscreen && monitor_count == 0 ==> r == Err::<WindowPlan, InitError>(
            InitError::NoMonitorFound,
        ),
        hints.fullscreen && monitor_count > 0 ==> r == Ok::<WindowPlan, InitError>(
            WindowPlan { fullscreen: true, position: None },
        ),
        !hints.fullscreen ==> r == Ok::<WindowPlan, InitError>(
            WindowPlan {
                fullscreen: false,
                position: centered_position_spec(hints.centered, current_monitor, outer_size),
            },
        ),
{
    if hints.fullscreen {
        if monitor_count == 0 {
            Err(InitError::NoMonitorFound)
        } else {
            Ok(WindowPlan { fullscreen: true, position: None })
        }
    } else {
        let position: Option<(u32, u32)> = match current_monitor {
            Some(m) => {
                if hints.centered && outer_size.0 <= m.0 && outer_size.1 <= m.1 {
                    Some(((m.0 - outer_size.0) / 2, (m.1 - outer_size.1) / 2))
                } else {
                    None
                }
            },
            None => None,
        };
        Ok(WindowPlan { fullscreen: false, position })
    }
}

/// Convert a frames-per-second pacing target into a per-frame sleep in
/// milliseconds; no target, or a zero target, means no sleeping.
pub fn convert_fps_to_wait(fps: Option<u32>) -> (r: Option<u64>)
    ensures
        r == match fps {
            Some(f) => if f > 0 {
                Some((1000u32 / f) as u64)
            } else {
                None::<u64>
            },
            None => None::<u64>,
        },
{
    match fps {
        Some(f) => {
            if f > 0 {
                Some((1000u32 / f) as u64)
            } else {
                None
            }
        },
        None => None,
    }
}

} // verus!
