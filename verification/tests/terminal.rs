use glyphterm::backing::{apply_resize, device_dimensions, plan_resize, Backing};
use glyphterm::bridge::{
    background_sprite, bg_tint_at, fg_tint_at, initialize_bridges, snapshot_of, sprite_at,
};
use glyphterm::cell::Cell;
use glyphterm::color::Rgb;
use glyphterm::console::{Console, DenseConsole, SparseConsole};
use glyphterm::error::{InitError, RunError};
use glyphterm::font::{build_sprite_rects, glyph_rect, sheet_size, Font};
use glyphterm::frame::{
    advance_key_delay, apply_input, next_transition, plan_frame, shader_for_console, update_timing,
    DrawStep, FrameTransition,
};
use glyphterm::init::{convert_fps_to_wait, plan_window_setup, InitHints, WindowPlan};
use glyphterm::input::capture_input;
use glyphterm::session::Session;
use glyphterm::shader::{build_registry, ShaderKind, SHADER_COUNT};
use glyphterm::vertex::{
    build_dense_background, build_dense_glyphs, build_sparse_background, build_sparse_glyphs,
};

fn red() -> Rgb {
    Rgb::new(255, 0, 0)
}

fn cell(glyph: u16) -> Cell {
    Cell::new(glyph, red(), Rgb::black())
}

#[test]
fn dense_char_size_invariant_under_set() {
    let mut c = DenseConsole::new(10, 5);
    assert_eq!(c.get_char_size(), (10, 5));
    for i in 0..100u32 {
        c.set(i % 13, i % 7, cell(65));
    }
    assert_eq!(c.get_char_size(), (10, 5));
}

#[test]
fn dense_out_of_range_set_is_noop() {
    let mut c = DenseConsole::new(80, 25);
    for x in 0..80u32 {
        c.set(x, x % 25, cell((x % 200) as u16 + 33));
    }
    let before = c.tiles.clone();
    c.set(80, 0, cell(64));
    c.set(0, 25, cell(64));
    c.set(4000, 4000, cell(64));
    assert_eq!(before, c.tiles);
}

#[test]
fn dense_set_get_round_trip() {
    let mut c = DenseConsole::new(4, 3);
    for y in 0..3u32 {
        for x in 0..4u32 {
            let w = cell((64 + x + y) as u16);
            c.set(x, y, w);
            assert_eq!(c.get(x, y), Some(w));
        }
    }
    assert_eq!(c.get(4, 0), None);
    assert_eq!(c.get(0, 3), None);
}

#[test]
fn dense_repeated_identical_write_is_idempotent() {
    let mut c = DenseConsole::new(8, 8);
    c.set(3, 4, cell(90));
    let once = c.tiles.clone();
    c.set(3, 4, cell(90));
    assert_eq!(once, c.tiles);
}

#[test]
fn sparse_last_write_wins() {
    let mut c = SparseConsole::new(80, 25);
    c.set(7, 9, cell(65));
    c.set(7, 9, cell(66));
    assert_eq!(c.entries.len(), 1);
    assert_eq!(c.get(7, 9), Some(cell(66)));
}

#[test]
fn sparse_set_get_round_trip_and_independence() {
    let mut c = SparseConsole::new(40, 40);
    c.set(1, 2, cell(65));
    c.set(3, 4, cell(66));
    c.set(1, 2, cell(67));
    assert_eq!(c.get(1, 2), Some(cell(67)));
    assert_eq!(c.get(3, 4), Some(cell(66)));
    assert_eq!(c.get(5, 6), None);
    assert_eq!(c.entries.len(), 2);
}

#[test]
fn sparse_out_of_range_set_is_noop() {
    let mut c = SparseConsole::new(10, 10);
    c.set(10, 0, cell(65));
    c.set(0, 10, cell(65));
    assert_eq!(c.entries.len(), 0);
}

#[test]
fn sparse_repeated_identical_write_is_idempotent() {
    let mut c = SparseConsole::new(10, 10);
    c.set(2, 2, cell(65));
    c.set(2, 2, cell(65));
    assert_eq!(c.entries.len(), 1);
    assert_eq!(c.get(2, 2), Some(cell(65)));
}

#[test]
fn resize_with_unchanged_dimensions_requests_no_rebuild() {
    let b = Backing { width: 1000, height: 750, fbo: 7, texture: 8 };
    assert_eq!(plan_resize(&b, (1000, 750)), None);
    assert_eq!(plan_resize(&b, (1001, 750)), Some((1001, 750)));
    assert_eq!(plan_resize(&b, (1000, 751)), Some((1000, 751)));
}

#[test]
fn resize_apply_replaces_backing() {
    let mut b = Backing { width: 100, height: 100, fbo: 1, texture: 2 };
    apply_resize(&mut b, (200, 150), 3, 4);
    assert_eq!(b, Backing { width: 200, height: 150, fbo: 3, texture: 4 });
}

#[test]
fn device_dimensions_apply_scale_percent() {
    assert_eq!(device_dimensions((800, 600), 125), (1000, 750));
    assert_eq!(device_dimensions((800, 600), 100), (800, 600));
}

#[test]
fn all_default_grid_emits_no_glyphs_but_full_background() {
    let c = DenseConsole::new(80, 25);
    let glyphs = build_dense_glyphs(&c);
    let bg = build_dense_background(&c);
    assert_eq!(glyphs.len(), 0);
    assert_eq!(bg.len(), 80 * 25);
    // every cell is covered exactly once by the background pass
    let q = &bg[0];
    assert_eq!((q.x, q.y), (0, 24));
    assert_eq!(q.glyph, 254);
    let q = &bg[80 * 25 - 1];
    assert_eq!((q.x, q.y), (79, 0));
}

#[test]
fn single_set_cell_emits_one_glyph_quad() {
    let mut c = DenseConsole::new(80, 25);
    c.set(0, 0, Cell::new(64, red(), Rgb::black()));
    let glyphs = build_dense_glyphs(&c);
    assert_eq!(glyphs.len(), 1);
    let q = &glyphs[0];
    assert_eq!(q.glyph, 64);
    assert_eq!((q.x, q.y), (0, 24));
    assert_eq!(q.tint, red());
}

#[test]
fn sparse_batches_cover_entries_only() {
    let mut c = SparseConsole::new(30, 20);
    c.set(5, 1, cell(65));
    c.set(6, 2, cell(66));
    let glyphs = build_sparse_glyphs(&c);
    let bg = build_sparse_background(&c);
    assert_eq!(glyphs.len(), 2);
    assert_eq!(bg.len(), 2);
    assert_eq!((glyphs[0].x, glyphs[0].y, glyphs[0].glyph), (5, 18, 65));
    assert_eq!((glyphs[1].x, glyphs[1].y, glyphs[1].glyph), (6, 17, 66));
    assert_eq!(bg[0].glyph, 254);
    assert_eq!(bg[0].tint, Rgb::black());
}

#[test]
fn fullscreen_with_no_monitor_fails_before_any_window() {
    let mut hints = InitHints::default();
    hints.fullscreen = true;
    let r = plan_window_setup(&hints, 0, None, (800, 600));
    assert_eq!(r, Err(InitError::NoMonitorFound));
    let r = plan_window_setup(&hints, 1, None, (800, 600));
    assert_eq!(r, Ok(WindowPlan { fullscreen: true, position: None }));
}

#[test]
fn centered_window_position_is_half_the_margin() {
    let mut hints = InitHints::default();
    hints.centered = true;
    let r = plan_window_setup(&hints, 1, Some((1920, 1080)), (800, 600));
    assert_eq!(r, Ok(WindowPlan { fullscreen: false, position: Some((560, 240)) }));
    // no monitor metadata: best-effort skip
    let r = plan_window_setup(&hints, 1, None, (800, 600));
    assert_eq!(r, Ok(WindowPlan { fullscreen: false, position: None }));
    // window larger than the monitor: skip rather than underflow
    let r = plan_window_setup(&hints, 1, Some((640, 480)), (800, 600));
    assert_eq!(r, Ok(WindowPlan { fullscreen: false, position: None }));
}

#[test]
fn bridging_two_dense_consoles_is_a_resource_limit_failure() {
    let mut s = Session::new(640, 400);
    s.add_console(Console::Dense(DenseConsole::new(80, 25)), 0);
    s.add_console(Console::Dense(DenseConsole::new(40, 12)), 0);
    let r = initialize_bridges(&s);
    assert!(matches!(r, Err(RunError::ResourceLimit)));
}

#[test]
fn bridging_one_dense_console_publishes_its_snapshot() {
    let mut s = Session::new(640, 400);
    s.add_console(Console::Sparse(SparseConsole::new(80, 25)), 0);
    s.add_console(Console::Dense(DenseConsole::new(80, 25)), 1);
    let r = initialize_bridges(&s);
    let snap = r.unwrap().unwrap();
    assert_eq!((snap.width, snap.height), (80, 25));
    assert_eq!(snap.tiles.len(), 80 * 25);

    let none = initialize_bridges(&Session::new(64, 64)).unwrap();
    assert!(none.is_none());
}

#[test]
fn snapshot_of_bridges_only_dense_consoles() {
    let mut d = DenseConsole::new(4, 4);
    d.set(1, 1, cell(64));
    let snap = snapshot_of(&Console::Dense(d)).unwrap();
    assert_eq!(snap.tiles[1 * 4 + 1], cell(64));
    assert!(snapshot_of(&Console::Sparse(SparseConsole::new(4, 4))).is_none());
}

#[test]
fn host_tile_callbacks_flip_the_row() {
    let mut d = DenseConsole::new(80, 25);
    d.set(0, 0, Cell::new(64, red(), Rgb::new(0, 0, 99)));
    let snap = snapshot_of(&Console::Dense(d)).unwrap();
    // console row 0 is the top; the host engine asks with a bottom-left origin
    assert_eq!(sprite_at(&snap, 0, 24), Some(64));
    assert_eq!(fg_tint_at(&snap, 0, 24), red());
    assert_eq!(bg_tint_at(&snap, 0, 24), Rgb::new(0, 0, 99));
    assert_eq!(sprite_at(&snap, 1, 24), Some(32));
    assert_eq!(background_sprite(), Some(254));
}

#[test]
fn glyph_rects_follow_the_sixteen_by_sixteen_layout() {
    assert_eq!(glyph_rect((8, 16), 0), (0, 0, 8, 16));
    assert_eq!(glyph_rect((8, 16), 17), (8, 16, 8, 16));
    assert_eq!(glyph_rect((8, 16), 255), (120, 240, 8, 16));
    assert_eq!(sheet_size((8, 16)), (128, 256));
    let rects = build_sprite_rects((8, 16));
    assert_eq!(rects.len(), 256);
    assert_eq!(rects[0], (0, 0, 8, 16));
    assert_eq!(rects[16], (0, 16, 8, 16));
    assert_eq!(rects[255], (120, 240, 8, 16));
}

#[test]
fn font_texture_handle_is_populated_lazily() {
    let mut f = Font::load(String::from("terminal8x8.png"), (8, 8));
    assert!(f.sheet.is_none());
    f.setup_gl_texture(42);
    assert_eq!(f.sheet, Some(42));
    assert_eq!(f.tile_size, (8, 8));
}

#[test]
fn registry_is_all_or_nothing_and_index_stable() {
    let ok: Vec<Result<u32, String>> = (0..6u32).map(|i| Ok(100 + i)).collect();
    let reg = build_registry(&ok).unwrap();
    assert_eq!(reg.programs.len(), SHADER_COUNT);
    assert_eq!(reg.get(ShaderKind::ConsoleWithBg), 100);
    assert_eq!(reg.get(ShaderKind::ConsoleNoBg), 101);
    assert_eq!(reg.get(ShaderKind::Backing), 102);
    assert_eq!(reg.get(ShaderKind::Scanlines), 103);
    assert_eq!(reg.get(ShaderKind::Fancy), 104);
    assert_eq!(reg.get(ShaderKind::Sprite), 105);

    let mut bad: Vec<Result<u32, String>> = (0..6u32).map(|i| Ok(100 + i)).collect();
    bad[3] = Err(String::from("syntax error"));
    assert_eq!(build_registry(&bad), Err(InitError::ShaderCompile(3)));
}

#[test]
fn fps_pacing_conversion() {
    assert_eq!(convert_fps_to_wait(Some(60)), Some(16));
    assert_eq!(convert_fps_to_wait(Some(30)), Some(33));
    assert_eq!(convert_fps_to_wait(Some(0)), None);
    assert_eq!(convert_fps_to_wait(None), None);
}

#[test]
fn input_snapshot_last_key_wins() {
    let keys = vec![5u32, 9, 13];
    let s = capture_input(&keys, Some((10, 20)), true, true, false, false);
    assert_eq!(s.key, Some(13));
    assert_eq!(s.mouse_pos, Some((10, 20)));
    assert!(s.left_click);
    assert!(s.shift && !s.control && !s.alt);
    let s = capture_input(&Vec::new(), None, false, false, false, false);
    assert_eq!(s.key, None);
    assert_eq!(s.mouse_pos, None);
    assert!(!s.left_click);
}

#[test]
fn key_delay_rate_limits_polling() {
    assert_eq!(advance_key_delay(40, 20), (0, true));
    assert_eq!(advance_key_delay(10, 20), (30, false));
    assert_eq!(advance_key_delay(30, 20), (50, false));
    assert_eq!(advance_key_delay(31, 20), (0, true));
}

#[test]
fn timing_update_is_integral_and_saturating() {
    let mut s = Session::new(640, 400);
    update_timing(&mut s, 16667);
    assert_eq!(s.frame_time_ms, 16);
    assert_eq!(s.fps, 59);
    update_timing(&mut s, 0);
    assert_eq!(s.fps, 0);
    assert_eq!(s.frame_time_ms, 0);
}

#[test]
fn applying_input_resets_then_installs_when_polling() {
    let mut s = Session::new(640, 400);
    let snap = capture_input(&vec![7u32], Some((3, 4)), true, false, true, false);
    apply_input(&mut s, true, &snap);
    assert_eq!(s.key, Some(7));
    assert_eq!(s.mouse_pos, (3, 4));
    assert!(s.left_click);
    assert!(s.control && !s.shift && !s.alt);
    let snap2 = capture_input(&vec![9u32], Some((8, 8)), true, false, true, false);
    apply_input(&mut s, false, &snap2);
    assert_eq!(s.key, None);
    assert!(!s.left_click);
    assert!(!s.control);
    // between polls the pointer keeps its last position
    assert_eq!(s.mouse_pos, (3, 4));
}

#[test]
fn frame_plan_draws_layers_bottom_to_top_then_composites() {
    let mut s = Session::new(640, 400);
    s.add_font(Font::load(String::from("terminal8x8.png"), (8, 8)));
    s.add_console(Console::Dense(DenseConsole::new(80, 25)), 0);
    s.add_console(Console::Sparse(SparseConsole::new(80, 25)), 0);
    s.post_scanlines = true;
    let steps = plan_frame(&s);
    assert_eq!(
        steps,
        vec![
            DrawStep::BindFont(0),
            DrawStep::UseShader(0),
            DrawStep::DrawConsole(0),
            DrawStep::BindFont(0),
            DrawStep::UseShader(1),
            DrawStep::DrawConsole(1),
            DrawStep::Composite { scanlines: true, screen_burn: None },
        ]
    );
    s.post_screenburn = true;
    let steps = plan_frame(&s);
    assert_eq!(
        steps[6],
        DrawStep::Composite { scanlines: true, screen_burn: Some(Rgb::new(0, 255, 255)) }
    );
}

#[test]
fn shader_selection_matches_console_kind() {
    assert_eq!(shader_for_console(&Console::Dense(DenseConsole::new(1, 1))), 0);
    assert_eq!(shader_for_console(&Console::Sparse(SparseConsole::new(1, 1))), 1);
}

#[test]
fn quitting_is_observed_at_the_top_of_the_cycle() {
    let mut s = Session::new(640, 400);
    assert_eq!(next_transition(&s), FrameTransition::Render);
    s.quitting = true;
    assert_eq!(next_transition(&s), FrameTransition::Quit);
}

#[test]
fn session_initial_state() {
    let s = Session::new(640, 400);
    assert_eq!((s.width_pixels, s.height_pixels), (640, 400));
    assert_eq!((s.original_width_pixels, s.original_height_pixels), (640, 400));
    assert_eq!((s.fps, s.frame_time_ms), (0, 0));
    assert_eq!(s.active_console, 0);
    assert_eq!(s.get_active_console(), 0);
    assert!(s.consoles.is_empty() && s.fonts.is_empty());
    assert!(!s.quitting && !s.post_scanlines && !s.post_screenburn);
    assert_eq!(s.screen_burn_color, Rgb::new(0, 255, 255));
}

#[test]
fn console_enum_dispatches_set_and_size() {
    let mut c = Console::Dense(DenseConsole::new(10, 10));
    assert_eq!(c.get_char_size(), (10, 10));
    c.set(2, 3, cell(70));
    match &c {
        Console::Dense(d) => assert_eq!(d.get(2, 3), Some(cell(70))),
        _ => panic!("variant changed"),
    }
    let mut c = Console::Sparse(SparseConsole::new(9, 9));
    assert_eq!(c.get_char_size(), (9, 9));
    c.set(1, 1, cell(71));
    match &c {
        Console::Sparse(sp) => assert_eq!(sp.get(1, 1), Some(cell(71))),
        _ => panic!("variant changed"),
    }
}

#[test]
fn error_messages_name_the_failed_resource() {
    assert_eq!(InitError::NoMonitorFound.describe(), "no available monitor found");
    assert_eq!(InitError::ShaderCompile(2).describe(), "shader compilation failed");
    assert_eq!(InitError::FramebufferBuild.describe(), "backing framebuffer creation failed");
    assert_eq!(InitError::ContextCreate.describe(), "graphics context creation failed");
    assert_eq!(RunError::DeviceLost.describe(), "graphics device lost");
    assert_eq!(RunError::ResourceLimit.describe(), "host engine supports a single dense console");
}

#[test]
fn dirty_mark_tracks_content_changes() {
    let mut c = Console::Dense(DenseConsole::new(10, 10));
    // a fresh console needs its first rebuild
    assert!(c.take_dirty());
    assert!(!c.take_dirty());
    c.set(1, 1, cell(65));
    assert!(c.take_dirty());
    // an out-of-range write does not re-mark it
    c.set(10, 10, cell(65));
    assert!(!c.take_dirty());
    let mut sp = SparseConsole::new(10, 10);
    assert!(sp.take_dirty());
    sp.set(1, 1, cell(65));
    assert!(sp.take_dirty());
    assert!(!sp.take_dirty());
}
