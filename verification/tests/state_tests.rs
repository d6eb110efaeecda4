use wgs::{PausableClock, PixelPos, RuntimeError, RuntimeState, Viewport};

#[test]
fn frame_lifecycle_ordering() {
    let mut s = RuntimeState::new(1000, None);
    // render and finish while idle fail
    assert!(matches!(s.prepare_render(1000), Err(RuntimeError::NoActiveFrame)));
    assert!(matches!(s.finish_frame(), Err(RuntimeError::NoActiveFrame)));
    // a start-render-finish sequence succeeds and returns to idle
    assert!(s.begin_frame().is_ok());
    assert!(s.frame_active);
    // starting twice without a finish fails
    assert!(matches!(s.begin_frame(), Err(RuntimeError::FrameInProgress)));
    assert!(s.prepare_render(1016).is_ok());
    assert!(matches!(s.finish_frame(), Ok(None)));
    assert!(!s.frame_active);
    assert!(matches!(s.finish_frame(), Err(RuntimeError::NoActiveFrame)));
}

#[test]
fn render_uniform_resolution_rule() {
    let mut s = RuntimeState::new(0, None);
    s.resize(800, 600);
    s.begin_frame().unwrap();
    s.prepare_render(0).unwrap();
    assert_eq!(s.uniform.resolution_x, 800);
    assert_eq!(s.uniform.resolution_y, 600);
    s.set_viewport(Some(Viewport { x: 10, y: 20, width: 320, height: 200 }));
    s.prepare_render(0).unwrap();
    assert_eq!(s.uniform.resolution_x, 320);
    assert_eq!(s.uniform.resolution_y, 200);
}

#[test]
fn elapsed_time_does_not_advance_while_paused() {
    let mut s = RuntimeState::new(1000, None);
    s.begin_frame().unwrap();
    s.prepare_render(1500).unwrap();
    assert_eq!(s.uniform.time_millis, 500);
    s.pause(2000);
    assert!(s.is_paused);
    s.prepare_render(3000).unwrap();
    assert_eq!(s.uniform.time_millis, 1000); // frozen at the pause
    s.pause(3500); // pausing twice is a no-op
    assert!(s.is_paused);
    s.resume(4000);
    assert!(!s.is_paused);
    s.resume(4100); // resuming twice is a no-op
    assert!(!s.is_paused);
    s.prepare_render(4500).unwrap();
    // the paused span 2000..4000 does not count: 1000 + (4500 - 4000)
    assert_eq!(s.uniform.time_millis, 1500);
}

#[test]
fn cursor_and_mouse_updates_discarded_while_paused() {
    let mut s = RuntimeState::new(0, None);
    s.resize(100, 100);
    s.begin_frame().unwrap();
    s.prepare_render(0).unwrap();
    s.update_cursor(10, 30);
    assert_eq!(s.uniform.cursor, PixelPos { x: 10, y: 70 });
    let before = s.uniform;
    s.pause(10);
    s.update_cursor(50, 50);
    s.update_mouse_press();
    s.update_mouse_release();
    assert_eq!(s.uniform, before); // discarded, not queued
    s.resume(20);
    assert_eq!(s.uniform, before); // still unchanged after resume
}

#[test]
fn cursor_flips_to_bottom_left_origin() {
    let mut s = RuntimeState::new(0, None);
    s.resize(640, 480);
    s.begin_frame().unwrap();
    s.prepare_render(0).unwrap();
    s.update_cursor(0, 0);
    assert_eq!(s.uniform.cursor, PixelPos { x: 0, y: 480 });
    s.update_cursor(639, 480);
    assert_eq!(s.uniform.cursor, PixelPos { x: 639, y: 0 });
    s.update_cursor(5, 500); // below the surface: flips negative
    assert_eq!(s.uniform.cursor, PixelPos { x: 5, y: -20 });
}

#[test]
fn mouse_press_and_release_latch_cursor() {
    let mut s = RuntimeState::new(0, None);
    s.resize(100, 100);
    s.begin_frame().unwrap();
    s.prepare_render(0).unwrap();
    s.update_cursor(3, 4);
    s.update_mouse_press();
    assert!(s.uniform.mouse_down);
    assert_eq!(s.uniform.mouse_press, PixelPos { x: 3, y: 96 });
    s.update_cursor(8, 9);
    s.update_mouse_release();
    assert!(!s.uniform.mouse_down);
    assert_eq!(s.uniform.mouse_release, PixelPos { x: 8, y: 91 });
    assert_eq!(s.uniform.mouse_press, PixelPos { x: 3, y: 96 }); // unchanged
}

#[test]
fn restart_zeroes_clock_and_fields_but_keeps_resolution() {
    let mut s = RuntimeState::new(1000, None);
    s.resize(320, 240);
    s.begin_frame().unwrap();
    s.prepare_render(5000).unwrap();
    s.update_cursor(7, 9);
    s.update_mouse_press();
    s.pause(6000);
    s.restart(7000);
    assert!(!s.is_paused);
    assert_eq!(s.uniform.time_millis, 0);
    assert_eq!(s.uniform.cursor, PixelPos { x: 0, y: 0 });
    assert!(!s.uniform.mouse_down);
    assert_eq!(s.uniform.mouse_press, PixelPos { x: 0, y: 0 });
    assert_eq!(s.uniform.resolution_x, 320);
    assert_eq!(s.uniform.resolution_y, 240);
    s.prepare_render(7500).unwrap();
    assert_eq!(s.uniform.time_millis, 500);
}

#[test]
fn capture_request_drained_by_next_finish() {
    let mut s = RuntimeState::new(0, None);
    let vp1 = Viewport { x: 0, y: 0, width: 10, height: 10 };
    let vp2 = Viewport { x: 5, y: 5, width: 20, height: 20 };
    s.request_capture(vp1);
    s.request_capture(vp2); // replaces the first
    s.begin_frame().unwrap();
    assert_eq!(s.finish_frame().unwrap(), Some(vp2));
    // drained: the next finish carries none
    s.begin_frame().unwrap();
    assert_eq!(s.finish_frame().unwrap(), None);
}

#[test]
fn host_readings_are_clamped_monotone() {
    let mut s = RuntimeState::new(1000, None);
    s.begin_frame().unwrap();
    s.prepare_render(500).unwrap(); // the host clock stepped backwards
    assert_eq!(s.uniform.time_millis, 0);
    s.prepare_render(1500).unwrap();
    assert_eq!(s.uniform.time_millis, 500);
}

#[test]
fn pausable_clock_freezes_and_resumes() {
    let mut c = PausableClock::start(100);
    assert_eq!(c.elapsed_millis(150), 50);
    c.pause(150);
    assert_eq!(c.elapsed_millis(200), 50);
    assert_eq!(c.elapsed_millis(10_000), 50);
    c.resume(300);
    assert_eq!(c.elapsed_millis(350), 100);
}
