use vstd::prelude::*;
use crate::animation::{cadence, cadence_of, AnimationLibrary, AnimationState};
use crate::clock::{due_count, leftover, period_nanos, period_of, AnimationClock};

verus! {

/// Where a freshly spawned actor stands, in pixels.
pub const START_X: i64 = 30;
pub const START_Y: i64 = 30;

/// Vertical bias ("gravity") of a freshly spawned actor, in pixels per tick.
pub const GRAVITY: i64 = 5;

/// A frame of the library: frame `index` of the sequence of `state`.
#[derive(Clone, Copy, Debug, PartialEq, Eq, Structural)]
pub struct FrameRef {
    pub state: AnimationState,
    pub index: usize,
}

/// The keys the actor responds to; every other key is `Other`.
#[derive(Clone, Copy, Debug, PartialEq, Eq, Structural)]
pub enum Key {
    Right,
    Left,
    Up,
    Down,
    Other,
}

/// Runtime state of one actor. `sprite` is the frame on screen; it changes
/// only when a frame advance finds a sequence for the current state.
#[derive(Clone, Copy, Debug, PartialEq, Eq, Structural)]
pub struct ActorState {
    pub x: i64,
    pub y: i64,
    pub velocity: i64,
    pub vertical_bias: i64,
    pub state: AnimationState,
    pub frame_index: usize,
    pub sprite: FrameRef,
}

/// The actor as spawned: at the start position, still, idle, on frame 0.
pub open spec fn spawned() -> ActorState {
    ActorState {
        x: START_X,
        y: START_Y,
        velocity: 0,
        vertical_bias: GRAVITY,
        state: AnimationState::Idle,
        frame_index: 0,
        sprite: FrameRef { state: AnimationState::Idle, index: 0 },
    }
}

/// Switches to `s`; a change of state restarts the sequence at frame 0.
pub open spec fn with_state(a: ActorState, s: AnimationState) -> ActorState {
    if a.state == s {
        a
    } else {
        ActorState { state: s, frame_index: 0, ..a }
    }
}

pub open spec fn abs_of(b: i64) -> int {
    if b < 0 {
        -b
    } else {
        b as int
    }
}

/// Effect of pressing `key`.
pub open spec fn after_key_down(a: ActorState, key: Key) -> ActorState {
    match key {
        Key::Right => with_state(ActorState { velocity: 1, ..a }, AnimationState::Run),
        Key::Left => with_state(ActorState { velocity: -1i64, ..a }, AnimationState::Run),
        Key::Down => with_state(a, AnimationState::Dead),
        Key::Up => ActorState { vertical_bias: (-abs_of(a.vertical_bias)) as i64, ..a },
        Key::Other => a,
    }
}

/// Effect of releasing `key`.
pub open spec fn after_key_up(a: ActorState, key: Key) -> ActorState {
    match key {
        Key::Right => with_state(ActorState { velocity: 0, ..a }, AnimationState::Idle),
        Key::Left => with_state(ActorState { velocity: 0, ..a }, AnimationState::Idle),
        Key::Down => with_state(a, AnimationState::Idle),
        Key::Up => ActorState { vertical_bias: abs_of(a.vertical_bias) as i64, ..a },
        Key::Other => a,
    }
}

/// One motion tick fits in `i64`.
pub open spec fn can_move(a: ActorState) -> bool {
    &&& i64::MIN <= a.x + a.velocity <= i64::MAX
    &&& i64::MIN <= a.y + a.vertical_bias <= i64::MAX
}

/// One motion tick: velocity is added to x, the vertical bias to y.
pub open spec fn moved(a: ActorState) -> ActorState {
    ActorState { x: (a.x + a.velocity) as i64, y: (a.y + a.vertical_bias) as i64, ..a }
}

pub open spec fn moved_times(a: ActorState, t: nat) -> ActorState
    decreases t,
{
    if t == 0 {
        a
    } else {
        moved(moved_times(a, (t - 1) as nat))
    }
}

/// One frame advance over a sequence of `n` frames for the current state:
/// the index steps forward and wraps; with no frames nothing changes.
pub open spec fn advanced(a: ActorState, n: nat) -> ActorState {
    if n == 0 {
        a
    } else {
        let i = ((a.frame_index + 1) % (n as int)) as usize;
        ActorState { frame_index: i, sprite: FrameRef { state: a.state, index: i }, ..a }
    }
}

pub open spec fn advanced_times(a: ActorState, n: nat, k: nat) -> ActorState
    decreases k,
{
    if k == 0 {
        a
    } else {
        advanced(advanced_times(a, n, (k - 1) as nat), n)
    }
}

/// Frame advances that are due for `a` when the clock holds `pending`
/// nanoseconds and `elapsed` more have passed.
pub open spec fn due_for(a: ActorState, pending: int, elapsed: int) -> int {
    match cadence_of(a.state) {
        Some(fps) => due_count(pending, elapsed, period_of(fps)),
        None => 0,
    }
}

/// What the clock holds afterwards.
pub open spec fn pending_after(a: ActorState, pending: int, elapsed: int) -> int {
    match cadence_of(a.state) {
        Some(fps) => leftover(pending, elapsed, period_of(fps)),
        None => pending + elapsed,
    }
}

impl ActorState {
    /// The frame index lies within the sequence of the current state, when
    /// that state has one.
    pub open spec fn fits<H>(&self, lib: &AnimationLibrary<H>) -> bool {
        lib.frames(self.state).len() > 0 ==> self.frame_index < lib.frames(self.state).len()
    }

    pub fn new() -> (r: Self)
        ensures
            r == spawned(),
    {
        ActorState {
            x: START_X,
            y: START_Y,
            velocity: 0,
            vertical_bias: GRAVITY,
            state: AnimationState::Idle,
            frame_index: 0,
            sprite: FrameRef { state: AnimationState::Idle, index: 0 },
        }
    }

    /// Switches to `s`, restarting at frame 0 when the state changes.
    pub fn set_state(&mut self, s: AnimationState)
        ensures
            *final(self) == with_state(*old(self), s),
    {
        if self.state != s {
            self.state = s;
            self.frame_index = 0;
        }
    }

    pub fn key_down(&mut self, key: Key)
        ensures
            *final(self) == after_key_down(*old(self), key),
    {
        match key {
            Key::Right => {
                self.velocity = 1;
                self.set_state(AnimationState::Run);
            },
            Key::Left => {
                self.velocity = -1;
                self.set_state(AnimationState::Run);
            },
            Key::Down => self.set_state(AnimationState::Dead),
            Key::Up => {
                if self.vertical_bias > 0 {
                    self.vertical_bias = -self.vertical_bias;
                }
            },
            Key::Other => {},
        }
    }

    pub fn key_up(&mut self, key: Key)
        requires
            key == Key::Up ==> old(self).vertical_bias != i64::MIN,
        ensures
            *final(self) == after_key_up(*old(self), key),
    {
        match key {
            Key::Right => {
                self.velocity = 0;
                self.set_state(AnimationState::Idle);
            },
            Key::Left => {
                self.velocity = 0;
                self.set_state(AnimationState::Idle);
            },
            Key::Down => self.set_state(AnimationState::Idle),
            Key::Up => {
                if self.vertical_bias < 0 {
                    self.vertical_bias = -self.vertical_bias;
                }
            },
            Key::Other => {},
        }
    }

    /// One motion tick: unconditional, no clamping.
    pub fn move_position(&mut self)
        requires
            can_move(*old(self)),
        ensures
            *final(self) == moved(*old(self)),
    {
        self.x = self.x + self.velocity;
        self.y = self.y + self.vertical_bias;
    }

    /// Steps to the next frame of the current state's sequence, wrapping to
    /// frame 0 after the last; keeps the sprite when the state has none.
    pub fn advance_frame<H>(&mut self, lib: &AnimationLibrary<H>)
        requires
            lib.wf(),
        ensures
            *final(self) == advanced(*old(self), lib.frames(old(self).state).len()),
    {
        let n = lib.frame_count(self.state);
        if n > 0 {
            let i = self.frame_index % n;
            let next = if i + 1 == n {
                0
            } else {
                i + 1
            };
            proof {
                lemma_next_index(self.frame_index as int, n as int);
            }
            self.frame_index = next;
            self.sprite = FrameRef { state: self.state, index: next };
        }
    }

    /// Advances `count` frames in a row.
    pub fn advance_frames<H>(&mut self, lib: &AnimationLibrary<H>, count: u64)
        requires
            lib.wf(),
        ensures
            *final(self) == advanced_times(*old(self), lib.frames(old(self).state).len(), count as nat),
    {
        let ghost start = *self;
        let ghost n = lib.frames(start.state).len();
        let mut k: u64 = 0;
        while k < count
            invariant
                lib.wf(),
                k <= count,
                n == lib.frames(start.state).len(),
                *self == advanced_times(start, n, k as nat),
                self.state == start.state,
            decreases count - k,
        {
            self.advance_frame(lib);
            k = k + 1;
        }
    }

    /// Takes from `clock` the frame advances due at the current state's
    /// cadence, after adding `elapsed` nanoseconds, and performs them. A state
    /// without a cadence takes none; the time stays in the clock.
    pub fn animate<H>(&mut self, lib: &AnimationLibrary<H>, clock: &mut AnimationClock, elapsed: u64) -> (n: u64)
        requires
            lib.wf(),
            old(clock).pending() + elapsed <= u64::MAX,
        ensures
            n == due_for(*old(self), old(clock).pending() as int, elapsed as int),
            final(clock).pending() == pending_after(*old(self), old(clock).pending() as int, elapsed as int),
            *final(self) == advanced_times(*old(self), lib.frames(old(self).state).len(), n as nat),
    {
        clock.accumulate(elapsed);
        match cadence(self.state) {
            Some(fps) => {
                assert(fps == 20);
                let period = period_nanos(fps);
                let n = clock.take_due(period);
                self.advance_frames(lib, n);
                n
            },
            None => 0,
        }
    }
}

/// Stepping from index `i` of a sequence of `n` frames: wrapping first or
/// after the step lands on the same frame.
pub proof fn lemma_next_index(i: int, n: int)
    requires
        i >= 0,
        n > 0,
    ensures
        (i + 1) % n == (if i % n + 1 == n { 0 } else { i % n + 1 }),
        ((i % n) + 1) % n == (i + 1) % n,
{
    let q = i / n;
    let r = i % n;
    vstd::arithmetic::div_mod::lemma_fundamental_div_mod(i, n);
    assert(i == q * n + r) by (nonlinear_arith)
        requires
            i == n * q + r,
    ;
    if r + 1 == n {
        assert(i + 1 == (q + 1) * n + 0) by (nonlinear_arith)
            requires
                i == q * n + r,
                r + 1 == n,
        ;
        vstd::arithmetic::div_mod::lemma_fundamental_div_mod_converse(i + 1, n, q + 1, 0);
        vstd::arithmetic::div_mod::lemma_fundamental_div_mod_converse(r + 1, n, 1, 0);
    } else {
        assert(i + 1 == q * n + (r + 1));
        vstd::arithmetic::div_mod::lemma_fundamental_div_mod_converse(i + 1, n, q, r + 1);
        vstd::arithmetic::div_mod::lemma_fundamental_div_mod_converse(r + 1, n, 0, r + 1);
    }
}

/// After `k` advances over a sequence of `n` frames, the index is the start
/// index plus `k`, wrapped; the state does not change.
pub proof fn lemma_advanced_times_index(a: ActorState, n: nat, k: nat)
    requires
        0 < n <= usize::MAX,
        a.frame_index < n,
    ensures
        advanced_times(a, n, k).frame_index == (a.frame_index + k) % (n as int),
        advanced_times(a, n, k).state == a.state,
    decreases k,
{
    if k == 0 {
        vstd::arithmetic::div_mod::lemma_fundamental_div_mod_converse(a.frame_index as int, n as int, 0, a.frame_index as int);
    } else {
        lemma_advanced_times_index(a, n, (k - 1) as nat);
        let i = a.frame_index + k - 1;
        lemma_next_index(i, n as int);
        vstd::arithmetic::div_mod::lemma_fundamental_div_mod(i + 1, n as int);
    }
}

/// Frame cycle: for a state whose sequence holds `N` frames, advancing `N`
/// times returns to the frame index the actor started on.
pub proof fn lemma_frame_cycle<H>(lib: &AnimationLibrary<H>, a: ActorState)
    requires
        lib.wf(),
        lib.frames(a.state).len() > 0,
        a.fits(lib),
    ensures
        advanced_times(a, lib.frames(a.state).len(), lib.frames(a.state).len()).frame_index == a.frame_index,
{
    let n = lib.frames(a.state).len();
    lib.lemma_frames_fit(a.state);
    lemma_advanced_times_index(a, n, n);
    vstd::arithmetic::div_mod::lemma_fundamental_div_mod_converse(
        a.frame_index + n,
        n as int,
        1,
        a.frame_index as int,
    );
}

/// A state without frames keeps the actor, and so the sprite on screen,
/// unchanged across any number of advances.
pub proof fn lemma_no_sequence_keeps_sprite<H>(lib: &AnimationLibrary<H>, a: ActorState, k: nat)
    requires
        lib.frames(a.state).len() == 0,
    ensures
        advanced_times(a, lib.frames(a.state).len(), k) == a,
        advanced_times(a, lib.frames(a.state).len(), k).sprite == a.sprite,
    decreases k,
{
    if k > 0 {
        lemma_no_sequence_keeps_sprite(lib, a, (k - 1) as nat);
    }
}

/// Motion over ticks: after `t` ticks at constant velocity `v` and bias `g`,
/// the actor stands at `(x0 + v*t, y0 + g*t)`; nothing else changes.
pub proof fn lemma_motion_over_ticks(a: ActorState, t: nat)
    requires
        i64::MIN <= a.x + a.velocity * t <= i64::MAX,
        i64::MIN <= a.y + a.vertical_bias * t <= i64::MAX,
    ensures
        moved_times(a, t).x == a.x + a.velocity * t,
        moved_times(a, t).y == a.y + a.vertical_bias * t,
        moved_times(a, t).velocity == a.velocity,
        moved_times(a, t).vertical_bias == a.vertical_bias,
        moved_times(a, t).state == a.state,
        moved_times(a, t).frame_index == a.frame_index,
        moved_times(a, t).sprite == a.sprite,
    decreases t,
{
    if t > 0 {
        let t1 = (t - 1) as nat;
        assert(i64::MIN <= a.x + a.velocity * t1 <= i64::MAX) by (nonlinear_arith)
            requires
                i64::MIN <= a.x + a.velocity * t <= i64::MAX,
                i64::MIN <= a.x <= i64::MAX,
                t1 + 1 == t,
        ;
        assert(i64::MIN <= a.y + a.vertical_bias * t1 <= i64::MAX) by (nonlinear_arith)
            requires
                i64::MIN <= a.y + a.vertical_bias * t <= i64::MAX,
                i64::MIN <= a.y <= i64::MAX,
                t1 + 1 == t,
        ;
        lemma_motion_over_ticks(a, t1);
        assert(a.x + a.velocity * t1 + a.velocity == a.x + a.velocity * t) by (nonlinear_arith)
            requires
                t1 + 1 == t,
        ;
        assert(a.y + a.vertical_bias * t1 + a.vertical_bias == a.y + a.vertical_bias * t) by (nonlinear_arith)
            requires
                t1 + 1 == t,
        ;
    } else {
        assert(a.velocity * t == 0 && a.vertical_bias * t == 0) by (nonlinear_arith)
            requires
                t == 0,
        ;
    }
}

/// Pressing a key twice in a row has the effect of pressing it once: a
/// second Right leaves velocity +1 and state Run.
pub proof fn lemma_key_down_idempotent(a: ActorState, key: Key)
    ensures
        after_key_down(after_key_down(a, key), key) == after_key_down(a, key),
        key == Key::Right ==> after_key_down(after_key_down(a, key), key).velocity == 1
            && after_key_down(after_key_down(a, key), key).state == AnimationState::Run,
{
}

/// Releasing a key twice in a row has the effect of releasing it once.
pub proof fn lemma_key_up_idempotent(a: ActorState, key: Key)
    requires
        key == Key::Up ==> a.vertical_bias != i64::MIN,
    ensures
        after_key_up(after_key_up(a, key), key) == after_key_up(a, key),
{
}

/// Key events, motion and frame advances keep the frame index within the
/// current state's sequence.
pub proof fn lemma_fit_preserved<H>(lib: &AnimationLibrary<H>, a: ActorState, key: Key, k: nat)
    requires
        lib.wf(),
        a.fits(lib),
    ensures
        after_key_down(a, key).fits(lib),
        after_key_up(a, key).fits(lib),
        moved(a).fits(lib),
        advanced_times(a, lib.frames(a.state).len(), k).fits(lib),
{
    let n = lib.frames(a.state).len();
    if n > 0 {
        lib.lemma_frames_fit(a.state);
        lemma_advanced_times_index(a, n, k);
        vstd::arithmetic::div_mod::lemma_fundamental_div_mod(a.frame_index + k, n as int);
    } else {
        lemma_no_sequence_keeps_sprite(lib, a, k);
    }
}

} // verus!
