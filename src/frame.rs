use crate::viewport::SurfaceSize;
use vstd::prelude::*;

verus! {

/// Wall time between two redraws, in nanoseconds.
pub const FRAME_PERIOD_NANOS: u64 = 20000000;

/// Simulated time per unit of wall time, as the fraction
/// `SIM_RATE_NUM / SIM_RATE_DEN`.
pub const SIM_RATE_NUM: u64 = 4368;

/// Denominator of the simulated-time rate.
pub const SIM_RATE_DEN: u64 = 10000;

/// Simulated nanoseconds after `elapsed` wall nanoseconds since start,
/// rounded down.
pub open spec fn sim_time_at(elapsed: int) -> int {
    elapsed * SIM_RATE_NUM / SIM_RATE_DEN as int
}

/// Simulated nanoseconds after `elapsed` wall nanoseconds since start.
pub fn sim_time(elapsed: u64) -> (r: u64)
    ensures
        r == sim_time_at(elapsed as int),
{
    proof {
        sim_time_bound(elapsed as int);
    }
    (elapsed as u128 * SIM_RATE_NUM as u128 / SIM_RATE_DEN as u128) as u64
}

/// The four control inputs of the bike.
#[derive(Clone, Copy, Debug, PartialEq, Eq, Structural)]
pub struct Controls {
    pub rotate_left: bool,
    pub rotate_right: bool,
    pub throttle: bool,
    pub brake: bool,
}

impl Controls {
    /// No input held.
    pub fn new() -> (r: Controls)
        ensures
            !r.rotate_left && !r.rotate_right && !r.throttle && !r.brake,
    {
        Controls { rotate_left: false, rotate_right: false, throttle: false, brake: false }
    }
}

/// The keys that the game reads.
#[derive(Clone, Copy, Debug, PartialEq, Eq, Structural)]
pub enum Key {
    Left,
    Right,
    Up,
    Down,
    Space,
    Other,
}

/// What woke the frame loop.
#[derive(Clone, Copy, Debug, PartialEq, Eq, Structural)]
pub enum HostEvent {
    CloseRequested,
    Resized(SurfaceSize),
    Keyboard(Key, bool),
    RedrawRequested,
    Other,
}

/// The state that the frame loop carries from one wake to the next. Times
/// are wall nanoseconds since start.
#[derive(Clone, Copy, Debug, PartialEq, Eq, Structural)]
pub struct FrameClock {
    pub next_frame: u64,
    pub last_wake: u64,
    pub controls: Controls,
    pub surface: SurfaceSize,
    pub closed: bool,
}

/// What the host does after a wake, in this order: step the physics to
/// `sim_time` with the clock's controls, flip the bike's direction if
/// `toggle_direction`, draw a frame if `redraw`, apply `resize`, ask for a
/// redraw if `request_redraw`, release the renderer if `release`, and then
/// exit if `exit` or sleep until `wait_until`.
#[derive(Clone, Copy, Debug, PartialEq, Eq, Structural)]
pub struct WakePlan {
    pub sim_time: u64,
    pub toggle_direction: bool,
    pub redraw: bool,
    pub resize: Option<SurfaceSize>,
    pub request_redraw: bool,
    pub release: bool,
    pub exit: bool,
    pub wait_until: u64,
}

/// Whether a wake at `now` has crossed the redraw deadline.
pub open spec fn frame_due(s: FrameClock, now: int) -> bool {
    now > s.next_frame
}

/// The controls after a key press (`pressed`) or release.
pub open spec fn controls_after(c: Controls, key: Key, pressed: bool) -> Controls {
    match key {
        Key::Left => Controls { rotate_left: pressed, ..c },
        Key::Right => Controls { rotate_right: pressed, ..c },
        Key::Up => Controls { throttle: pressed, ..c },
        Key::Down => Controls { brake: pressed, ..c },
        _ => c,
    }
}

/// The clock after a wake at `now` that brought `ev`.
pub open spec fn next_clock(s: FrameClock, now: int, ev: HostEvent) -> FrameClock {
    FrameClock {
        next_frame: if frame_due(s, now) {
            (now + FRAME_PERIOD_NANOS) as u64
        } else {
            s.next_frame
        },
        last_wake: now as u64,
        controls: match ev {
            HostEvent::Keyboard(key, pressed) => controls_after(s.controls, key, pressed),
            _ => s.controls,
        },
        surface: match ev {
            HostEvent::Resized(size) => size,
            _ => s.surface,
        },
        closed: s.closed || ev == HostEvent::CloseRequested,
    }
}

/// What the host does after a wake at `now` that brought `ev`.
pub open spec fn wake_plan(s: FrameClock, now: int, ev: HostEvent) -> WakePlan {
    let n = next_clock(s, now, ev);
    WakePlan {
        sim_time: sim_time_at(now) as u64,
        toggle_direction: ev == HostEvent::Keyboard(Key::Space, true),
        redraw: ev == HostEvent::RedrawRequested,
        resize: match ev {
            HostEvent::Resized(size) => Some(size),
            _ => None,
        },
        request_redraw: frame_due(s, now),
        release: !s.closed && n.closed,
        exit: n.closed,
        wait_until: n.next_frame,
    }
}

impl FrameClock {
    /// A clock at start: the first redraw is due at once.
    pub fn new(surface: SurfaceSize) -> (r: FrameClock)
        ensures
            r.next_frame == 0,
            r.last_wake == 0,
            r.surface == surface,
            !r.closed,
            !r.controls.rotate_left && !r.controls.rotate_right,
            !r.controls.throttle && !r.controls.brake,
    {
        FrameClock { next_frame: 0, last_wake: 0, controls: Controls::new(), surface, closed: false }
    }

    /// Handles one wake of the frame loop at `now` wall nanoseconds since
    /// start, which brought `ev`, and says what the host does next.
    pub fn on_wake(&mut self, now: u64, ev: HostEvent) -> (r: WakePlan)
        requires
            old(self).last_wake <= now,
            now <= u64::MAX - FRAME_PERIOD_NANOS,
        ensures
            *final(self) == next_clock(*old(self), now as int, ev),
            r == wake_plan(*old(self), now as int, ev),
    {
        let due = now > self.next_frame;
        if due {
            self.next_frame = now + FRAME_PERIOD_NANOS;
        }
        self.last_wake = now;
        let sim = sim_time(now);
        let mut plan = WakePlan {
            sim_time: sim,
            toggle_direction: false,
            redraw: false,
            resize: None,
            request_redraw: due,
            release: false,
            exit: self.closed,
            wait_until: self.next_frame,
        };
        match ev {
            HostEvent::CloseRequested => {
                plan.release = !self.closed;
                self.closed = true;
                plan.exit = true;
            },
            HostEvent::Resized(size) => {
                self.surface = size;
                plan.resize = Some(size);
            },
            HostEvent::Keyboard(key, pressed) => {
                match key {
                    Key::Left => self.controls.rotate_left = pressed,
                    Key::Right => self.controls.rotate_right = pressed,
                    Key::Up => self.controls.throttle = pressed,
                    Key::Down => self.controls.brake = pressed,
                    Key::Space => plan.toggle_direction = pressed,
                    Key::Other => {},
                }
            },
            HostEvent::RedrawRequested => {
                plan.redraw = true;
            },
            HostEvent::Other => {},
        }
        plan
    }
}

/// Physics time never runs backwards: over two consecutive wakes, the second
/// at a wall time no earlier than the first, the simulated time handed to
/// the stepper does not decrease, whatever the events and redraws.
pub proof fn lemma_sim_time_monotonic(
    s: FrameClock,
    t1: int,
    e1: HostEvent,
    t2: int,
    e2: HostEvent,
)
    requires
        s.last_wake <= t1 <= u64::MAX - FRAME_PERIOD_NANOS,
        next_clock(s, t1, e1).last_wake <= t2 <= u64::MAX - FRAME_PERIOD_NANOS,
    ensures
        wake_plan(s, t1, e1).sim_time <= wake_plan(next_clock(s, t1, e1), t2, e2).sim_time,
{
    vstd::arithmetic::mul::lemma_mul_inequality(t1, t2, SIM_RATE_NUM as int);
    vstd::arithmetic::div_mod::lemma_div_is_ordered(t1 * SIM_RATE_NUM, t2 * SIM_RATE_NUM, SIM_RATE_DEN as int);
    sim_time_bound(t1);
    sim_time_bound(t2);
}

/// Simulated time is measured from start, not from the previous wake: a
/// wake at `now` hands the stepper `SIM_RATE * now` whatever the clock's
/// state and the event, so how often the loop wakes changes nothing.
pub proof fn lemma_sim_time_from_start(s1: FrameClock, s2: FrameClock, now: int, e1: HostEvent, e2: HostEvent)
    requires
        0 <= now <= u64::MAX,
    ensures
        wake_plan(s1, now, e1).sim_time == sim_time_at(now),
        wake_plan(s1, now, e1).sim_time == wake_plan(s2, now, e2).sim_time,
{
    sim_time_bound(now);
}

/// The simulated time of a wall time that fits a `u64` fits a `u64` too.
proof fn sim_time_bound(t: int)
    requires
        0 <= t <= u64::MAX,
    ensures
        0 <= sim_time_at(t) <= t,
{
    vstd::arithmetic::div_mod::lemma_div_is_ordered(t * SIM_RATE_NUM, t * SIM_RATE_DEN, SIM_RATE_DEN as int);
    vstd::arithmetic::div_mod::lemma_div_pos_is_pos(t * SIM_RATE_NUM, SIM_RATE_DEN as int);
    vstd::arithmetic::div_mod::lemma_div_multiples_vanish(t, SIM_RATE_DEN as int);
    vstd::arithmetic::mul::lemma_mul_is_commutative(t, SIM_RATE_DEN as int);
}

} // verus!
