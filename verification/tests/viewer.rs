use julia::controller::Controller;
use julia::controller::LoadError;
use julia::geometry::Dimensions;
use julia::geometry::Rat;
use julia::geometry::mapping_for;
use julia::geometry::pointer_to_param;
use julia::state::InputEvent;
use julia::state::ViewState;

fn rat_f32(r: Rat) -> f32 {
    r.num as f32 / r.den as f32
}

/// width=1000, height=500 gives aspect 2.0, mapping scale (4.0, 2.0);
/// the pointer at (1000, 0) gives re = 2.0 and im = -1.0.
#[test]
fn mapping_example() {
    let d = Dimensions { width: 1000, height: 500 };
    let m = mapping_for(d);
    assert_eq!(rat_f32(m.scale_x), 4.0);
    assert_eq!(rat_f32(m.scale_y), 2.0);
    let c = pointer_to_param(d, 1000, 0);
    assert_eq!(rat_f32(c.re), 2.0);
    assert_eq!(rat_f32(c.im), -1.0);
}

/// A portrait viewport widens the vertical axis instead.
#[test]
fn mapping_example_portrait() {
    let d = Dimensions { width: 500, height: 1000 };
    let m = mapping_for(d);
    assert_eq!(rat_f32(m.scale_x), 2.0);
    assert_eq!(rat_f32(m.scale_y), 4.0);
    let c = pointer_to_param(d, 0, 250);
    assert_eq!(rat_f32(c.re), -1.0);
    assert_eq!(rat_f32(c.im), -1.0);
}

/// Pixel -> parameter -> pixel recovers the pixel exactly: the parameter is
/// sent back through the forward rendering mapping (complex -> ndc under
/// the scale pair, then ndc -> pixel across the extent), all in exact
/// integer arithmetic.
#[test]
fn mapping_invertible_round_trip() {
    let cases: Vec<(u32, u32, u32, u32)> = vec![
        (1000, 500, 123, 456),
        (500, 1000, 499, 0),
        (640, 640, 640, 640),
        (1, 1, 0, 1),
        (1920, 1080, 960, 540),
        (3, 7, 2, 5),
    ];
    for (w, h, x, y) in cases {
        let d = Dimensions { width: w, height: h };
        let m = mapping_for(d);
        let c = pointer_to_param(d, x, y);
        // ndc = 2 * c / scale, pixel = (ndc + 1) * extent / 2.
        let ndc_re = (2 * c.re.num as i128 * m.scale_x.den as i128,
                      c.re.den as i128 * m.scale_x.num as i128);
        let px = ((ndc_re.0 + ndc_re.1) * w as i128, 2 * ndc_re.1);
        assert_ne!(px.1, 0);
        assert_eq!(px.0, x as i128 * px.1);
        let ndc_im = (2 * c.im.num as i128 * m.scale_y.den as i128,
                      c.im.den as i128 * m.scale_y.num as i128);
        let py = ((ndc_im.0 + ndc_im.1) * h as i128, 2 * ndc_im.1);
        assert_ne!(py.1, 0);
        assert_eq!(py.0, y as i128 * py.1);
    }
}

/// Both scale factors are at least 2 for every aspect ratio, so the
/// radius-2 disk centered at the origin is never clipped.
#[test]
fn disk_containment_sample() {
    let dims: Vec<(u32, u32)> = vec![(1, 1), (1, 10000), (10000, 1), (1920, 1080), (2, 3)];
    for (w, h) in dims {
        let m = mapping_for(Dimensions { width: w, height: h });
        assert!(m.scale_x.num >= 2 * m.scale_x.den as i64);
        assert!(m.scale_y.num >= 2 * m.scale_y.den as i64);
    }
}

/// A failed reload keeps the active program of the previous frame.
#[test]
fn reload_fallback() {
    let mut ctl: Controller<u32> = Controller::new(7, 800, 600);
    let events: Vec<InputEvent> = vec![];
    ctl.apply_reload_outcome(Err(LoadError::SourceUnavailable));
    ctl.finish_frame(&events);
    assert_eq!(ctl.program, 7);
    ctl.apply_reload_outcome(Err(LoadError::CompileFailed(String::from("syntax error"))));
    ctl.finish_frame(&events);
    assert_eq!(ctl.program, 7);
    assert!(ctl.is_running());
}

/// A reload that succeeds right after a failure makes the fresh program the
/// active one.
#[test]
fn reload_recovery() {
    let mut ctl: Controller<u32> = Controller::new(7, 800, 600);
    let events: Vec<InputEvent> = vec![];
    ctl.apply_reload_outcome(Err(LoadError::SourceUnavailable));
    ctl.finish_frame(&events);
    assert_eq!(ctl.program, 7);
    ctl.apply_reload_outcome(Ok(9));
    ctl.finish_frame(&events);
    assert_eq!(ctl.program, 9);
}

/// The reload policy by error variant: any error keeps the current program,
/// a success takes the fresh one; the view is untouched either way.
#[test]
fn reload_policy_by_variant() {
    let mut ctl: Controller<u32> = Controller::new(3, 64, 64);
    ctl.apply_reload_outcome(Err(LoadError::SourceUnavailable));
    assert_eq!(ctl.program, 3);
    ctl.apply_reload_outcome(Err(LoadError::CompileFailed(String::new())));
    assert_eq!(ctl.program, 3);
    ctl.apply_reload_outcome(Ok(4));
    assert_eq!(ctl.program, 4);
    assert_eq!(ctl.view.dims.width, 64);
    assert!(ctl.is_running());
}

/// A resize followed by a pointer move to the center of the new viewport
/// puts the parameter at the origin, whatever the state before.
#[test]
fn resize_then_center_pointer() {
    let mut ctl: Controller<u32> = Controller::new(1, 333, 77);
    let events = vec![
        InputEvent::PointerMoved { x: 5, y: 6 },
        InputEvent::Resize { width: 800, height: 600 },
        InputEvent::PointerMoved { x: 400, y: 300 },
    ];
    ctl.apply_reload_outcome(Ok(2));
    ctl.finish_frame(&events);
    assert_eq!(ctl.view.c.re.num, 0);
    assert_eq!(ctl.view.c.im.num, 0);
    assert_eq!(ctl.view.dims.width, 800);
    assert_eq!(ctl.view.dims.height, 600);
}

/// A degenerate resize clamps the zero extent to 1; a pointer move right
/// after still works and divides by nothing.
#[test]
fn degenerate_resize_clamps() {
    let mut s = ViewState::new(640, 480);
    s.apply_event(InputEvent::Resize { width: 100, height: 0 });
    assert_eq!(s.dims.width, 100);
    assert_eq!(s.dims.height, 1);
    s.apply_event(InputEvent::Resize { width: 0, height: 50 });
    assert_eq!(s.dims.width, 1);
    assert_eq!(s.dims.height, 50);
    s.apply_event(InputEvent::PointerMoved { x: 0, y: 25 });
    assert!(s.c.re.den >= 1);
    assert!(s.c.im.den >= 1);
}

/// A close request anywhere in a batch ends the loop after the batch is
/// fully applied; the events after the close are not lost.
#[test]
fn close_anywhere_terminates() {
    let mut ctl: Controller<u32> = Controller::new(1, 640, 480);
    let events = vec![
        InputEvent::PointerMoved { x: 10, y: 10 },
        InputEvent::Close,
        InputEvent::Resize { width: 320, height: 240 },
    ];
    ctl.apply_reload_outcome(Err(LoadError::SourceUnavailable));
    ctl.finish_frame(&events);
    assert!(!ctl.is_running());
    assert_eq!(ctl.view.dims.width, 320);
    assert_eq!(ctl.view.dims.height, 240);
}

/// Without a close request the loop keeps running, and unrecognized events
/// change nothing.
#[test]
fn other_events_are_ignored() {
    let mut ctl: Controller<u32> = Controller::new(1, 640, 480);
    let events = vec![InputEvent::Other, InputEvent::Other];
    ctl.apply_reload_outcome(Err(LoadError::SourceUnavailable));
    ctl.finish_frame(&events);
    assert!(ctl.is_running());
    assert_eq!(ctl.view.dims.width, 640);
    assert_eq!(ctl.view.dims.height, 480);
    assert_eq!(ctl.view.c.re.num, 0);
    assert_eq!(ctl.view.c.im.num, 0);
}

/// Later events of one batch override earlier ones: the last pointer
/// position wins.
#[test]
fn last_write_wins() {
    let mut s = ViewState::new(1000, 500);
    let events = vec![
        InputEvent::PointerMoved { x: 0, y: 0 },
        InputEvent::PointerMoved { x: 1000, y: 0 },
    ];
    s.drain(&events);
    assert_eq!(rat_f32(s.c.re), 2.0);
    assert_eq!(rat_f32(s.c.im), -1.0);
}

/// The startup state clamps degenerate framebuffer dimensions and puts the
/// parameter at the origin.
#[test]
fn initial_state() {
    let s = ViewState::new(0, 0);
    assert_eq!(s.dims.width, 1);
    assert_eq!(s.dims.height, 1);
    assert_eq!(s.c.re.num, 0);
    assert_eq!(s.c.im.num, 0);
    assert!(!s.close_requested);
}

/// The frame uniforms reflect the current view state.
#[test]
fn frame_uniforms_follow_state() {
    let mut ctl: Controller<u32> = Controller::new(1, 1000, 500);
    let events = vec![InputEvent::PointerMoved { x: 750, y: 125 }];
    ctl.apply_reload_outcome(Err(LoadError::SourceUnavailable));
    ctl.finish_frame(&events);
    let u = ctl.frame_uniforms();
    assert_eq!(rat_f32(u.screen_to_complex.scale_x), 4.0);
    assert_eq!(rat_f32(u.screen_to_complex.scale_y), 2.0);
    assert_eq!(rat_f32(u.c.re), 1.0);
    assert_eq!(rat_f32(u.c.im), -0.5);
}
