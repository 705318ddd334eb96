//! The frame cycle's decisions: input-poll rate limiting, timing updates,
//! applying the input snapshot, the quit check, and the per-frame draw
//! plan the platform layer executes against the backing buffer.

use crate::color::Rgb;
use crate::console::Console;
use crate::input::InputSnapshot;
use crate::session::Session;
use crate::shader::ShaderKind;
use vstd::prelude::*;

verus! {

/// Input is polled again only after this much frame time accumulated.
pub const KEY_POLL_INTERVAL_MS: u32 = 50;

/// Accumulate frame time into the input-poll delay; past the interval the
/// delay resets and polling is due.  Rate-limiting input decouples input
/// latency from render rate where polling is expensive.
pub fn advance_key_delay(delay_ms: u32, frame_ms: u32) -> (r: (u32, bool))
    ensures
        delay_ms + frame_ms > KEY_POLL_INTERVAL_MS ==> r == (0u32, true),
        delay_ms + frame_ms <= KEY_POLL_INTERVAL_MS ==> r == (
            (delay_ms + frame_ms) as u32,
            false,
        ),
{
    let acc: u64 = delay_ms as u64 + frame_ms as u64;
    if acc > KEY_POLL_INTERVAL_MS as u64 {
        (0, true)
    } else {
        (acc as u32, false)
    }
}

/// Update the session's timing counters from the frame's duration:
/// duration in whole milliseconds, and whole frames per second (zero for
/// a zero-length frame), both saturating.
pub fn update_timing(s: &mut Session, delta_us: u64)
    ensures
        Session::layout_unchanged(*old(s), *final(s)),
        Session::input_unchanged(*old(s), *final(s)),
        final(s).frame_time_ms == if delta_us / 1000 > u32::MAX {
            u32::MAX
        } else {
            (delta_us / 1000) as u32
        },
        final(s).fps == if delta_us > 0 {
            (1000000u64 / delta_us) as u32
        } else {
            0u32
        },
{
    let ms: u64 = delta_us / 1000;
    self_frame_time(s, ms);
    if delta_us > 0 {
        let f: u64 = 1000000u64 / delta_us;
        s.fps = f as u32;
    } else {
        s.fps = 0;
    }
}

/// Saturating store of the frame time.
fn self_frame_time(s: &mut Session, ms: u64)
    ensures
        Session::layout_unchanged(*old(s), *final(s)),
        Session::input_unchanged(*old(s), *final(s)),
        final(s).fps == old(s).fps,
        final(s).frame_time_ms == if ms > u32::MAX {
            u32::MAX
        } else {
            ms as u32
        },
{
    if ms > u32::MAX as u64 {
        s.frame_time_ms = u32::MAX;
    } else {
        s.frame_time_ms = ms as u32;
    }
}

/// Reset the per-frame input fields, then apply the fresh snapshot if the
/// poll interval elapsed; between polls the pointer keeps its last
/// position while key and click state read as released.
pub fn apply_input(s: &mut Session, poll: bool, snap: &InputSnapshot)
    ensures
        Session::layout_unchanged(*old(s), *final(s)),
        Session::timing_unchanged(*old(s), *final(s)),
        final(s).key == if poll {
            snap.key
        } else {
            None::<u32>
        },
        final(s).left_click == (poll && snap.left_click),
        final(s).mouse_pos == match snap.mouse_pos {
            Some(p) => if poll {
                p
            } else {
                old(s).mouse_pos
            },
            None => old(s).mouse_pos,
        },
        final(s).shift == (poll && snap.shift),
        final(s).control == (poll && snap.control),
        final(s).alt == (poll && snap.alt),
        final(s).web_button == old(s).web_button,
{
    s.left_click = false;
    s.key = None;
    s.shift = false;
    s.control = false;
    s.alt = false;
    if poll {
        s.key = snap.key;
        match snap.mouse_pos {
            Some(p) => {
                s.mouse_pos = p;
            },
            None => {},
        }
        if snap.left_click {
            s.left_click = true;
        }
        s.shift = snap.shift;
        s.control = snap.control;
        s.alt = snap.alt;
    }
}

/// What the frame loop does next: quit is observed at the top of the
/// cycle and is terminal.
#[derive(Clone, Copy, PartialEq, Eq, Structural, Debug)]
pub enum FrameTransition {
    Quit,
    Render,
}

/// The cooperative quit check.
pub fn next_transition(s: &Session) -> (t: FrameTransition)
    ensures
        t == if s.quitting {
            FrameTransition::Quit
        } else {
            FrameTransition::Render
        },
{
    if s.quitting {
        FrameTransition::Quit
    } else {
        FrameTransition::Render
    }
}

/// One step of the draw plan the platform layer executes in order.
#[derive(Clone, Copy, PartialEq, Eq, Structural, Debug)]
pub enum DrawStep {
    /// Bind the glyph-sheet texture of this font.
    BindFont(usize),
    /// Switch to the program at this registry index.
    UseShader(usize),
    /// Draw this console layer's vertex batches into the backing buffer.
    DrawConsole(usize),
    /// Composite the backing buffer to the surface, with the enabled post
    /// effects.
    Composite { scanlines: bool, screen_burn: Option<Rgb> },
}

/// The registry index of the shader a console kind draws with: dense
/// consoles paint their backgrounds, sparse ones draw transparently.
pub open spec fn shader_for_console_spec(c: Console) -> int {
    match c {
        Console::Dense(_) => ShaderKind::ConsoleWithBg.index_spec(),
        Console::Sparse(_) => ShaderKind::ConsoleNoBg.index_spec(),
    }
}

pub fn shader_for_console(c: &Console) -> (i: usize)
    ensures
        i as int == shader_for_console_spec(*c),
{
    match c {
        Console::Dense(_) => ShaderKind::ConsoleWithBg.index(),
        Console::Sparse(_) => ShaderKind::ConsoleNoBg.index(),
    }
}

/// The draw steps of the first `n` console layers, bottom to top: bind
/// the layer's font, select the shader for its kind, draw it.
pub open spec fn console_steps(s: Session, n: int) -> Seq<DrawStep>
    decreases n,
{
    if n <= 0 {
        Seq::empty()
    } else {
        console_steps(s, n - 1) + seq![
            DrawStep::BindFont(s.consoles@[n - 1].font_index),
            DrawStep::UseShader(shader_for_console_spec(s.consoles@[n - 1].console) as usize),
            DrawStep::DrawConsole((n - 1) as usize),
        ]
    }
}

/// The whole frame's draw plan: every console layer in order, then the
/// final composite with the post effects the session enables.
pub open spec fn plan_frame_spec(s: Session) -> Seq<DrawStep> {
    console_steps(s, s.consoles@.len() as int) + seq![
        DrawStep::Composite {
            scanlines: s.post_scanlines,
            screen_burn: if s.post_screenburn {
                Some(s.screen_burn_color)
            } else {
                None
            },
        },
    ]
}

/// Compute the frame's draw plan.
pub fn plan_frame(s: &Session) -> (steps: Vec<DrawStep>)
    ensures
        steps@ == plan_frame_spec(*s),
{
    let mut steps: Vec<DrawStep> = Vec::new();
    let n: usize = s.consoles.len();
    let mut i: usize = 0;
    while i < n
        invariant
            i <= n,
            n == s.consoles@.len(),
            steps@ == console_steps(*s, i as int),
        decreases n - i,
    {
        steps.push(DrawStep::BindFont(s.consoles[i].font_index));
        steps.push(DrawStep::UseShader(shader_for_console(&s.consoles[i].console)));
        steps.push(DrawStep::DrawConsole(i));
        assert(steps@ =~= console_steps(*s, i as int + 1));
        i = i + 1;
    }
    let burn: Option<Rgb> = if s.post_screenburn {
        Some(s.screen_burn_color)
    } else {
        None
    };
    steps.push(DrawStep::Composite { scanlines: s.post_scanlines, screen_burn: burn });
    assert(steps@ =~= plan_frame_spec(*s));
    steps
}

} // verus!
