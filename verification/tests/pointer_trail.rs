use shader_paper::anchor::AnchorSet;
use shader_paper::config::{Margin, PaperConfig};
use shader_paper::pointer::{PointerSample, PointerTrail};
use shader_paper::session::{Action, DisplayEvent, Session};

fn config_with_trail(n: usize) -> PaperConfig {
    PaperConfig {
        output_name: None,
        width: Some(800),
        height: Some(600),
        anchor: AnchorSet { top: false, bottom: true, left: false, right: false },
        margin: Margin { top: 0, right: 0, bottom: 0, left: 0 },
        pointer_trail_frames: n,
        fps: None,
        shader_path: String::from("shader.wgsl"),
    }
}

/// Binds and configures the surface so that frames are drawn.
fn rendering_session(n: usize) -> Session {
    let mut s = Session::new(config_with_trail(n));
    let a = s.handle_event(DisplayEvent::OutputAdded {
        name: None,
        logical_width: None,
        logical_height: None,
        now_nanos: 0,
    });
    assert!(matches!(a, Action::BindSurface { .. }));
    let a = s.handle_event(DisplayEvent::SurfaceConfigured { width: 0, height: 0, now_nanos: 0 });
    assert!(matches!(a, Action::ConfigureSurface { .. }));
    s
}

#[test]
fn trail_always_has_exactly_n_entries() {
    for n in [1usize, 2, 4, 10, 33] {
        let mut t = PointerTrail::new(n);
        assert_eq!(t.len(), n);
        for k in 0..3 * n {
            t.push(PointerSample::At { px: k as u32, py: 0, width: 100, height: 100 });
            assert_eq!(t.len(), n);
        }
    }
}

#[test]
fn new_trail_is_all_sentinels() {
    let t = PointerTrail::new(5);
    assert_eq!(t.entries().as_slice(), &[PointerSample::Absent; 5][..]);
}

#[test]
fn push_puts_newest_first_and_drops_oldest() {
    let mut t = PointerTrail::new(2);
    let p1 = PointerSample::At { px: 1, py: 1, width: 10, height: 10 };
    let p2 = PointerSample::At { px: 2, py: 2, width: 10, height: 10 };
    let p3 = PointerSample::At { px: 3, py: 3, width: 10, height: 10 };
    t.push(p1);
    assert_eq!(t.entries().as_slice(), &[p1, PointerSample::Absent][..]);
    t.push(p2);
    assert_eq!(t.entries().as_slice(), &[p2, p1][..]);
    t.push(p3);
    assert_eq!(t.entries().as_slice(), &[p3, p2][..]);
}

#[test]
fn motion_pushes_normalized_position() {
    let mut s = rendering_session(3);
    s.handle_event(DisplayEvent::PointerMoved { px: 400, py: 150, on_surface: true });
    s.handle_event(DisplayEvent::FramePacing { now_nanos: 1 });
    // The record holds the pixel position and the surface size it is
    // normalized against: (400/800, 150/600) = (0.5, 0.25).
    assert_eq!(
        s.trail.entries()[0],
        PointerSample::At { px: 400, py: 150, width: 800, height: 600 }
    );
    if let PointerSample::At { px, py, width, height } = s.trail.entries()[0] {
        let x = px as f32 / width as f32;
        let y = py as f32 / height as f32;
        assert_eq!(x, 0.5);
        assert_eq!(y, 0.25);
        assert!((0.0..=1.0).contains(&x) && (0.0..=1.0).contains(&y));
    }
}

#[test]
fn leave_pushes_sentinel_on_next_frame() {
    let mut s = rendering_session(3);
    s.handle_event(DisplayEvent::PointerMoved { px: 10, py: 10, on_surface: true });
    s.handle_event(DisplayEvent::FramePacing { now_nanos: 1 });
    assert!(matches!(s.trail.entries()[0], PointerSample::At { .. }));
    s.handle_event(DisplayEvent::PointerLeft { on_surface: true });
    s.handle_event(DisplayEvent::FramePacing { now_nanos: 2 });
    assert_eq!(s.trail.entries()[0], PointerSample::Absent);
}

#[test]
fn events_off_the_surface_are_discarded() {
    let mut s = rendering_session(2);
    s.handle_event(DisplayEvent::PointerMoved { px: 10, py: 10, on_surface: false });
    s.handle_event(DisplayEvent::FramePacing { now_nanos: 1 });
    assert_eq!(s.trail.entries()[0], PointerSample::Absent);
}

#[test]
fn events_before_binding_are_discarded() {
    let mut s = Session::new(config_with_trail(2));
    let a = s.handle_event(DisplayEvent::PointerMoved { px: 10, py: 10, on_surface: true });
    assert_eq!(a, Action::Idle);
    assert_eq!(s.current, PointerSample::Absent);
}

#[test]
fn position_on_surface_edge_normalizes_to_one() {
    let mut s = rendering_session(1);
    s.handle_event(DisplayEvent::PointerMoved { px: 800, py: 600, on_surface: true });
    s.handle_event(DisplayEvent::FramePacing { now_nanos: 1 });
    if let PointerSample::At { px, py, width, height } = s.trail.entries()[0] {
        assert_eq!(px as f32 / width as f32, 1.0);
        assert_eq!(py as f32 / height as f32, 1.0);
    } else {
        panic!("expected a position record");
    }
}
