//! The terminal session: the aggregate the application manipulates.  It
//! owns the consoles and fonts, the per-frame input fields, the timing
//! counters and the post-effect toggles; the tick callback mutates it,
//! the frame loop keeps it current.

use crate::color::Rgb;
use crate::console::Console;
use crate::font::Font;
use vstd::prelude::*;

verus! {

/// A console paired with the font it draws with.
pub struct ConsoleLayer {
    pub console: Console,
    pub font_index: usize,
}

/// The session state shared between the frame loop and the application
/// tick callback.
pub struct Session {
    pub width_pixels: u32,
    pub height_pixels: u32,
    pub original_width_pixels: u32,
    pub original_height_pixels: u32,
    /// Frames per second, rounded down to a whole number.
    pub fps: u32,
    /// Last frame's duration in whole milliseconds.
    pub frame_time_ms: u32,
    pub fonts: Vec<Font>,
    /// Console layers, drawn bottom to top in list order.
    pub consoles: Vec<ConsoleLayer>,
    pub active_console: usize,
    pub key: Option<u32>,
    pub mouse_pos: (i32, i32),
    pub left_click: bool,
    pub shift: bool,
    pub control: bool,
    pub alt: bool,
    pub web_button: Option<String>,
    pub quitting: bool,
    pub post_scanlines: bool,
    pub post_screenburn: bool,
    pub screen_burn_color: Rgb,
}

impl Session {
    /// Every console layer holds a well-formed console.
    pub open spec fn wf(self) -> bool {
        forall|i: int|
            0 <= i < self.consoles@.len() ==> (#[trigger] self.consoles@[i]).console.wf()
    }

    /// The fields the frame loop never touches: dimensions, resources,
    /// layer list, selection and post-effect settings.
    pub open spec fn layout_unchanged(a: Session, b: Session) -> bool {
        &&& b.width_pixels == a.width_pixels
        &&& b.height_pixels == a.height_pixels
        &&& b.original_width_pixels == a.original_width_pixels
        &&& b.original_height_pixels == a.original_height_pixels
        &&& b.fonts == a.fonts
        &&& b.consoles == a.consoles
        &&& b.active_console == a.active_console
        &&& b.quitting == a.quitting
        &&& b.post_scanlines == a.post_scanlines
        &&& b.post_screenburn == a.post_screenburn
        &&& b.screen_burn_color == a.screen_burn_color
    }

    pub open spec fn input_unchanged(a: Session, b: Session) -> bool {
        &&& b.key == a.key
        &&& b.mouse_pos == a.mouse_pos
        &&& b.left_click == a.left_click
        &&& b.shift == a.shift
        &&& b.control == a.control
        &&& b.alt == a.alt
        &&& b.web_button == a.web_button
    }

    pub open spec fn timing_unchanged(a: Session, b: Session) -> bool {
        &&& b.fps == a.fps
        &&& b.frame_time_ms == a.frame_time_ms
    }

    /// A fresh session: no consoles, no fonts, zeroed timing, no input,
    /// post effects off, the default screen-burn tint.
    pub fn new(width_pixels: u32, height_pixels: u32) -> (s: Session)
        ensures
            s.wf(),
            s.width_pixels == width_pixels,
            s.height_pixels == height_pixels,
            s.original_width_pixels == width_pixels,
            s.original_height_pixels == height_pixels,
            s.fps == 0,
            s.frame_time_ms == 0,
            s.fonts@.len() == 0,
            s.consoles@.len() == 0,
            s.active_console == 0,
            s.key is None,
            s.mouse_pos == (0i32, 0i32),
            s.left_click == false,
            s.shift == false,
            s.control == false,
            s.alt == false,
            s.web_button is None,
            s.quitting == false,
            s.post_scanlines == false,
            s.post_screenburn == false,
            s.screen_burn_color == Rgb::burn_default_spec(),
    {
        Session {
            width_pixels,
            height_pixels,
            original_width_pixels: width_pixels,
            original_height_pixels: height_pixels,
            fps: 0,
            frame_time_ms: 0,
            fonts: Vec::new(),
            consoles: Vec::new(),
            active_console: 0,
            key: None,
            mouse_pos: (0, 0),
            left_click: false,
            shift: false,
            control: false,
            alt: false,
            web_button: None,
            quitting: false,
            post_scanlines: false,
            post_screenburn: false,
            screen_burn_color: Rgb::burn_default(),
        }
    }

    /// Register a font; its index is how console layers refer to it.
    pub fn add_font(&mut self, font: Font) -> (idx: usize)
        requires
            old(self).wf(),
        ensures
            final(self).wf(),
            final(self).fonts@ == old(self).fonts@.push(font),
            idx as int == old(self).fonts@.len(),
            final(self).consoles == old(self).consoles,
            final(self).width_pixels == old(self).width_pixels,
            final(self).height_pixels == old(self).height_pixels,
            final(self).active_console == old(self).active_console,
            final(self).quitting == old(self).quitting,
            Session::input_unchanged(*old(self), *final(self)),
            Session::timing_unchanged(*old(self), *final(self)),
    {
        let idx: usize = self.fonts.len();
        self.fonts.push(font);
        idx
    }

    /// Append a console layer, on top of the existing ones, and return its
    /// index.
    pub fn add_console(&mut self, console: Console, font_index: usize) -> (idx: usize)
        requires
            old(self).wf(),
            console.wf(),
        ensures
            final(self).wf(),
            final(self).consoles@ == old(self).consoles@.push(
                ConsoleLayer { console, font_index },
            ),
            idx as int == old(self).consoles@.len(),
            final(self).fonts == old(self).fonts,
            final(self).width_pixels == old(self).width_pixels,
            final(self).height_pixels == old(self).height_pixels,
            final(self).active_console == old(self).active_console,
            final(self).quitting == old(self).quitting,
            final(self).post_scanlines == old(self).post_scanlines,
            final(self).post_screenburn == old(self).post_screenburn,
            Session::input_unchanged(*old(self), *final(self)),
            Session::timing_unchanged(*old(self), *final(self)),
    {
        let idx: usize = self.consoles.len();
        self.consoles.push(ConsoleLayer { console, font_index });
        idx
    }

    /// The index of the console the application currently addresses.
    pub fn get_active_console(&self) -> (idx: usize)
        ensures
            idx == self.active_console,
    {
        self.active_console
    }
}

} // verus!
