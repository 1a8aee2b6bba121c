use elma_scene::frame::{sim_time, FrameClock, HostEvent, Key, FRAME_PERIOD_NANOS};
use elma_scene::viewport::SurfaceSize;

const MS: u64 = 1_000_000;

fn clock() -> FrameClock {
    FrameClock::new(SurfaceSize { width: 1024, height: 768 })
}

#[test]
fn simulated_time_is_measured_from_start() {
    let mut c = clock();
    let t1 = 1000 * MS;
    let t2 = t1 + 16 * MS;
    let a = c.on_wake(t1, HostEvent::Other);
    let b = c.on_wake(t2, HostEvent::Other);
    assert_eq!(a.sim_time, 436_800_000);
    assert_eq!(b.sim_time, 443_788_800);
    assert_eq!(b.sim_time - a.sim_time, 6_988_800);
    let mut fresh = clock();
    assert_eq!(fresh.on_wake(t2, HostEvent::RedrawRequested).sim_time, b.sim_time);
}

#[test]
fn simulated_time_never_decreases() {
    let mut c = clock();
    let mut last = 0;
    for t in [0u64, 3, 3, 17, 40, 41, 90, 1000, 1001] {
        let plan = c.on_wake(t * MS, HostEvent::Other);
        assert!(plan.sim_time >= last);
        last = plan.sim_time;
    }
    assert_eq!(sim_time(10_000), 4368);
}

#[test]
fn redraw_is_requested_once_per_period() {
    let mut c = clock();
    let first = c.on_wake(1, HostEvent::Other);
    assert!(first.request_redraw);
    assert_eq!(first.wait_until, 1 + FRAME_PERIOD_NANOS);
    let early = c.on_wake(10 * MS, HostEvent::Other);
    assert!(!early.request_redraw);
    assert_eq!(early.wait_until, 1 + FRAME_PERIOD_NANOS);
    let late = c.on_wake(25 * MS, HostEvent::Other);
    assert!(late.request_redraw);
    assert_eq!(late.wait_until, 25 * MS + FRAME_PERIOD_NANOS);
    assert_eq!(c.next_frame, 45 * MS);
}

#[test]
fn keys_set_controls_and_space_flips_direction() {
    let mut c = clock();
    c.on_wake(1, HostEvent::Keyboard(Key::Up, true));
    c.on_wake(2, HostEvent::Keyboard(Key::Left, true));
    assert!(c.controls.throttle && c.controls.rotate_left);
    assert!(!c.controls.brake && !c.controls.rotate_right);
    c.on_wake(3, HostEvent::Keyboard(Key::Up, false));
    assert!(!c.controls.throttle);
    c.on_wake(4, HostEvent::Keyboard(Key::Down, true));
    c.on_wake(5, HostEvent::Keyboard(Key::Right, true));
    assert!(c.controls.brake && c.controls.rotate_right);
    assert!(c.on_wake(6, HostEvent::Keyboard(Key::Space, true)).toggle_direction);
    assert!(!c.on_wake(7, HostEvent::Keyboard(Key::Space, false)).toggle_direction);
    assert!(!c.on_wake(8, HostEvent::Keyboard(Key::Other, true)).toggle_direction);
}

#[test]
fn redraw_and_resize_are_reported() {
    let mut c = clock();
    assert!(c.on_wake(1, HostEvent::RedrawRequested).redraw);
    let size = SurfaceSize { width: 800, height: 600 };
    let plan = c.on_wake(2, HostEvent::Resized(size));
    assert_eq!(plan.resize, Some(size));
    assert!(!plan.redraw);
    assert_eq!(c.surface, size);
}

#[test]
fn close_releases_once_and_exits() {
    let mut c = clock();
    let a = c.on_wake(1, HostEvent::Other);
    assert!(!a.exit && !a.release);
    let b = c.on_wake(2, HostEvent::CloseRequested);
    assert!(b.exit && b.release);
    let d = c.on_wake(3, HostEvent::CloseRequested);
    assert!(d.exit && !d.release);
    let e = c.on_wake(4, HostEvent::Other);
    assert!(e.exit && !e.release);
}
