use servo_gtk::bridge::{Bridge, BridgeError};
use servo_gtk::context::{select_api, ContextError, GTKRenderingContext, GlApi, GlVersion, Phase};
use servo_gtk::geometry::{coordinates_for, Rect, Size2};
use servo_gtk::pump::{LoopPump, PumpStep};
use servo_gtk::view::{ViewCommand, Web};

fn bound(w: i32, h: i32, scale: i32) -> GTKRenderingContext {
    let mut c = GTKRenderingContext::new(0, 0, 1);
    assert!(c.realize(GlApi::Gl, w, h, scale));
    c
}

#[test]
fn realized_800x600_then_resized_400x300() {
    let mut c = bound(800, 600, 1);
    let g = c.get_coordinates();
    assert_eq!(g.window_rect, Rect { min_x: 0, min_y: 0, max_x: 800, max_y: 600 });
    assert_eq!(g.hidpi_factor, 1);
    assert_eq!(g.hidpi_factor as f32, 1.0f32);
    c.host_resized(400, 300, 1);
    let g = c.get_coordinates();
    assert_eq!(g.window_rect, Rect { min_x: 0, min_y: 0, max_x: 400, max_y: 300 });
    assert_eq!(g.viewport, Rect { min_x: 0, min_y: 0, max_x: 400, max_y: 300 });
}

#[test]
fn geometry_covers_the_whole_surface() {
    let g = coordinates_for(1024, 768, 2);
    let s = Size2 { width: 1024, height: 768 };
    assert_eq!(g.screen_size, s);
    assert_eq!(g.available_screen_size, s);
    assert_eq!(g.framebuffer, s);
    assert_eq!(g.window_rect, Rect { min_x: 0, min_y: 0, max_x: 1024, max_y: 768 });
    assert_eq!(g.viewport, g.window_rect);
    assert_eq!(g.hidpi_factor, 2);
}

#[test]
fn zero_and_unset_sizes_give_zero_area() {
    let zero = Rect { min_x: 0, min_y: 0, max_x: 0, max_y: 0 };
    assert_eq!(coordinates_for(0, 0, 1).viewport, zero);
    assert_eq!(coordinates_for(-1, -1, 1).viewport, zero);
    assert_eq!(coordinates_for(-1, 5, 1).framebuffer, Size2 { width: 0, height: 5 });
}

#[test]
fn coordinates_are_stable_without_resize() {
    let mut c = bound(640, 480, 1);
    let first = c.get_coordinates();
    c.present();
    c.on_render();
    assert_eq!(c.get_coordinates(), first);
    assert_eq!(c.get_coordinates(), first);
}

#[test]
fn resize_is_ignored_after_destroy() {
    let mut c = bound(640, 480, 1);
    c.destroy();
    c.host_resized(10, 10, 1);
    assert_eq!(c.width, 640);
    assert_eq!(c.phase, Phase::TornDown);
}

#[test]
fn presents_before_a_redraw_collapse_into_one() {
    let mut c = bound(800, 600, 1);
    let asks = (0..5).filter(|_| c.present()).count();
    assert_eq!(asks, 1);
    assert!(c.on_render());
    assert!(c.present());
    assert!(!c.present());
}

#[test]
fn present_before_realize_asks_nothing() {
    let mut c = GTKRenderingContext::new(800, 600, 1);
    assert!(!c.present());
    assert!(!c.redraw_queued);
    assert!(!c.on_render());
}

#[test]
fn make_current_before_realize_fails_without_change() {
    let c = GTKRenderingContext::new(800, 600, 1);
    assert_eq!(c.make_current(), Err(ContextError::NotRealized));
    let mut d = c;
    assert_eq!(d.activation_result(true), Err(ContextError::NotRealized));
    assert_eq!(d, c);
    assert!(!d.can_query_gl());
}

#[test]
fn make_current_after_destroy_fails() {
    let mut c = bound(800, 600, 1);
    c.destroy();
    assert_eq!(c.make_current(), Err(ContextError::TornDown));
    assert_eq!(c.activation_result(true), Err(ContextError::TornDown));
}

#[test]
fn refused_activation_is_reported() {
    let mut c = bound(800, 600, 1);
    assert_eq!(c.make_current(), Ok(()));
    assert_eq!(c.activation_result(false), Err(ContextError::ActivationFailed));
    assert!(!c.current);
    assert_eq!(c.framebuffer_object(9), 0);
}

#[test]
fn framebuffer_after_make_current_is_the_bound_one() {
    let mut c = bound(800, 600, 1);
    assert_eq!(c.framebuffer_object(7), 0);
    assert_eq!(c.make_current(), Ok(()));
    assert_eq!(c.activation_result(true), Ok(()));
    assert!(c.can_query_gl());
    assert_eq!(c.framebuffer_object(7), 7);
    assert_eq!(c.framebuffer_object(0), 0);
}

#[test]
fn gl_version_follows_the_host_context() {
    let c = bound(800, 600, 1);
    assert_eq!(c.gl_version(Some((3, 2))), GlVersion::Gl(3, 2));
    assert_eq!(c.gl_version(None), GlVersion::Gl(0, 0));
    let mut e = GTKRenderingContext::new(0, 0, 1);
    e.realize(GlApi::Gles, 1, 1, 1);
    assert_eq!(e.gl_version(Some((3, 0))), GlVersion::Gles(3, 0));
    assert_eq!(e.gl_api(), GlApi::Gles);
}

#[test]
fn api_is_chosen_from_the_host() {
    assert_eq!(select_api(true), GlApi::Gl);
    assert_eq!(select_api(false), GlApi::Gles);
}

#[test]
fn realize_happens_once() {
    let mut c = GTKRenderingContext::new(1, 1, 1);
    assert!(c.realize(GlApi::Gl, 800, 600, 1));
    assert!(!c.realize(GlApi::Gles, 10, 10, 2));
    assert_eq!(c.api, GlApi::Gl);
    assert_eq!(c.width, 800);
}

#[test]
fn many_wakes_give_one_tick() {
    let mut p = LoopPump::new();
    assert_eq!(p.on_idle(true), PumpStep::Idle);
    assert!(p.install());
    assert!(!p.install());
    p.wake();
    p.wake();
    p.wake();
    assert!(p.wake_pending);
    assert_eq!(p.on_idle(true), PumpStep::Tick);
    assert!(!p.wake_pending);
    assert_eq!(p.on_idle(true), PumpStep::Tick);
}

#[test]
fn pump_stops_when_surface_dies() {
    let mut p = LoopPump::new();
    p.install();
    assert_eq!(p.on_idle(false), PumpStep::Stop);
    assert_eq!(p.on_idle(true), PumpStep::Idle);
}

#[test]
fn ready_to_show_fires_once() {
    let mut w = Web::new();
    let s = Size2 { width: 800, height: 600 };
    let first = w.notify_ready_to_show(s);
    assert_eq!(
        first,
        vec![
            ViewCommand::Focus,
            ViewCommand::MoveResize(Rect { min_x: 0, min_y: 0, max_x: 800, max_y: 600 }),
            ViewCommand::RaiseToTop(true),
        ]
    );
    assert!(w.notify_ready_to_show(s).is_empty());
}

#[test]
fn bridge_binds_and_parses_target() {
    let mut b = Bridge::new(800, 600, 1);
    let url = b.on_realize(true, 800, 600, 1, "https://servo.org").unwrap();
    assert_eq!(url.as_str(), "https://servo.org/");
    assert_eq!(b.context.phase, Phase::Bound);
    assert!(b.pump.installed);
    assert_eq!(b.on_idle(), PumpStep::Tick);
    assert_eq!(b.on_realize(false, 1, 1, 1, "https://servo.org").unwrap_err(), BridgeError::AlreadyRealized);
    assert_eq!(b.context.api, GlApi::Gl);
}

#[test]
fn bridge_rejects_bad_target() {
    let mut b = Bridge::new(800, 600, 1);
    let before = b;
    assert_eq!(b.on_realize(false, 800, 600, 1, "not a url").unwrap_err(), BridgeError::InvalidTarget);
    assert_eq!(b, before);
    assert_eq!(b.on_idle(), PumpStep::Idle);
}

#[test]
fn bridge_stops_pump_after_destroy() {
    let mut b = Bridge::new(800, 600, 1);
    b.on_realize(false, 800, 600, 1, "https://example.com/a").unwrap();
    assert_eq!(b.context.api, GlApi::Gles);
    b.on_destroy();
    assert_eq!(b.on_idle(), PumpStep::Stop);
    assert_eq!(b.on_idle(), PumpStep::Idle);
    assert_eq!(b.context.make_current(), Err(ContextError::TornDown));
}
