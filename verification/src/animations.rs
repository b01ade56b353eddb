//! Easing curves and the animation clock that every surface shares.
//!
//! Time is a count of milliseconds on a clock that never runs backwards; the
//! host reads it and hands it in. Progress is the exact fraction
//! `elapsed / duration`, and an eased value is an exact fraction too.

use crate::ratio::MAX_SLIDE_DEN;
use crate::ratio::Ratio;
use vstd::prelude::*;

verus! {

/// The phase of a surface's animation clock.
#[derive(Debug, Clone, Copy, PartialEq, Eq, Structural)]
pub enum AnimType {
    Idle,
    Entering,
    Exiting,
}

/// How far an animation has run: `elapsed` of `duration` milliseconds.
///
/// Every pair of values is a progress: once `elapsed` reaches `duration` the
/// animation is complete and the progress is 1, and an animation of no
/// duration is complete from the start.
#[derive(Debug, Clone, Copy, PartialEq, Eq, Structural)]
pub struct Progress {
    pub elapsed: u16,
    pub duration: u16,
}

impl Progress {
    /// Whether the animation has run its whole duration.
    pub open spec fn is_complete(self) -> bool {
        self.elapsed >= self.duration
    }

    /// The numerator of the progress as a fraction.
    pub open spec fn num(self) -> int {
        if self.is_complete() {
            1
        } else {
            self.elapsed as int
        }
    }

    /// The denominator of the progress as a fraction; it is positive.
    pub open spec fn den(self) -> int {
        if self.is_complete() {
            1
        } else {
            self.duration as int
        }
    }

    /// The progress as a number: `min(elapsed / duration, 1)`.
    pub open spec fn value(self) -> real {
        self.num() as real / self.den() as real
    }

    /// The progress as a fraction.
    pub open spec fn ratio(self) -> Ratio {
        Ratio { num: self.num() as i128, den: self.den() as i128 }
    }

    /// The progress of an animation of `duration_ms` that began `elapsed_ms`
    /// ago.
    pub fn new(elapsed_ms: u64, duration_ms: u16) -> (p: Progress)
        ensures
            p.duration == duration_ms,
            p.elapsed == if elapsed_ms >= duration_ms {
                duration_ms as int
            } else {
                elapsed_ms as int
            },
            p.is_complete() <==> elapsed_ms >= duration_ms,
    {
        if elapsed_ms >= duration_ms as u64 {
            Progress { elapsed: duration_ms, duration: duration_ms }
        } else {
            Progress { elapsed: elapsed_ms as u16, duration: duration_ms }
        }
    }

    /// Whether the animation has run its whole duration.
    pub fn complete(&self) -> (done: bool)
        ensures
            done == self.is_complete(),
    {
        self.elapsed >= self.duration
    }

    /// The progress as a fraction in the unit interval.
    pub fn fraction(&self) -> (r: Ratio)
        ensures
            r == self.ratio(),
            r.wf(),
            r.in_unit(),
            r.den <= u16::MAX,
            r.value() == self.value(),
    {
        if self.elapsed >= self.duration {
            Ratio { num: 1, den: 1 }
        } else {
            Ratio { num: self.elapsed as i128, den: self.duration as i128 }
        }
    }
}

/// Quadratic ease-out: `t * (2 - t)`.
pub open spec fn quad(t: real) -> real {
    t * (2 as real - t)
}

/// Cubic ease-out: `1 - (1 - t)^3`.
pub open spec fn cubic(t: real) -> real {
    1 as real - (1 as real - t) * (1 as real - t) * (1 as real - t)
}

/// The overshoot constant of the back ease-out, 1.70158.
pub open spec fn back_c1() -> real {
    170158 as real / 100000 as real
}

/// Back ease-out: `1 + c3 * (t - 1)^3 + c1 * (t - 1)^2` with `c3 = c1 + 1`. It
/// runs past 1 before it settles there.
pub open spec fn back(t: real) -> real {
    1 as real + (back_c1() + 1 as real) * ((t - 1 as real) * (t - 1 as real) * (t - 1 as real))
        + back_c1() * ((t - 1 as real) * (t - 1 as real))
}

/// The quadratic ease-out of `n / d`, as a fraction.
pub open spec fn quad_ratio(n: int, d: int) -> Ratio {
    Ratio { num: (n * (2 * d - n)) as i128, den: (d * d) as i128 }
}

/// The cubic ease-out of `n / d`, as a fraction.
pub open spec fn cubic_ratio(n: int, d: int) -> Ratio {
    Ratio { num: (d * d * d - (d - n) * (d - n) * (d - n)) as i128, den: (d * d * d) as i128 }
}

/// The back ease-out of `n / d`, as a fraction.
pub open spec fn back_ratio(n: int, d: int) -> Ratio {
    Ratio {
        num: (100000 * (d * d * d) + 270158 * ((n - d) * (n - d) * (n - d)) + 170158 * ((n - d) * (n
            - d) * d)) as i128,
        den: (100000 * (d * d * d)) as i128,
    }
}

/// `quad_ratio(n, d)` is `quad(n / d)`.
pub proof fn lemma_quad_ratio_value(n: int, d: int)
    requires
        d > 0,
    ensures
        (n * (2 * d - n)) as real / (d * d) as real == quad(n as real / d as real),
{
    let nr = n as real;
    let dr = d as real;
    assert((n * (2 * d - n)) as real == nr * (2 as real * dr - nr)) by (nonlinear_arith)
        requires
            nr == n as real,
            dr == d as real,
    ;
    assert((d * d) as real == dr * dr) by (nonlinear_arith)
        requires
            dr == d as real,
    ;
    assert((nr * (2 as real * dr - nr)) / (dr * dr) == (nr / dr) * (2 as real - nr / dr))
        by (nonlinear_arith)
        requires
            dr > 0 as real,
    ;
}

/// `cubic_ratio(n, d)` is `cubic(n / d)`.
pub proof fn lemma_cubic_ratio_value(n: int, d: int)
    requires
        d > 0,
    ensures
        (d * d * d - (d - n) * (d - n) * (d - n)) as real / (d * d * d) as real == cubic(
            n as real / d as real,
        ),
{
    let nr = n as real;
    let dr = d as real;
    let u = dr - nr;
    assert(((d - n) * (d - n) * (d - n)) as real == u * u * u) by (nonlinear_arith)
        requires
            u == (d - n) as real,
    ;
    assert((d * d * d) as real == dr * dr * dr) by (nonlinear_arith)
        requires
            dr == d as real,
    ;
    assert((d * d * d - (d - n) * (d - n) * (d - n)) as real == dr * dr * dr - u * u * u);
    let w = u / dr;
    assert(w == 1 as real - nr / dr) by (nonlinear_arith)
        requires
            w == u / dr,
            u == dr - nr,
            dr > 0 as real,
    ;
    assert((u * u * u) / (dr * dr * dr) == w * w * w) by (nonlinear_arith)
        requires
            w == u / dr,
            dr > 0 as real,
    ;
    assert((dr * dr * dr - u * u * u) / (dr * dr * dr) == 1 as real - (u * u * u) / (dr * dr * dr))
        by (nonlinear_arith)
        requires
            dr > 0 as real,
    ;
}

/// `back_ratio(n, d)` is `back(n / d)`.
pub proof fn lemma_back_ratio_value(n: int, d: int)
    requires
        d > 0,
    ensures
        (100000 * (d * d * d) + 270158 * ((n - d) * (n - d) * (n - d)) + 170158 * ((n - d) * (n - d)
            * d)) as real / (100000 * (d * d * d)) as real == back(n as real / d as real),
{
    let nr = n as real;
    let dr = d as real;
    let u = nr - dr;
    let d3 = dr * dr * dr;
    assert(((n - d) * (n - d) * (n - d)) as real == u * u * u) by (nonlinear_arith)
        requires
            u == (n - d) as real,
    ;
    assert(((n - d) * (n - d) * d) as real == u * u * dr) by (nonlinear_arith)
        requires
            u == (n - d) as real,
            dr == d as real,
    ;
    assert((d * d * d) as real == d3) by (nonlinear_arith)
        requires
            dr == d as real,
            d3 == dr * dr * dr,
    ;
    let k = 100000 as real;
    let top = k * d3 + 270158 as real * (u * u * u) + 170158 as real * (u * u * dr);
    assert((100000 * (d * d * d) + 270158 * ((n - d) * (n - d) * (n - d)) + 170158 * ((n - d) * (n
        - d) * d)) as real == top);
    assert((100000 * (d * d * d)) as real == k * d3);
    let w = u / dr;
    assert(w == nr / dr - 1 as real) by (nonlinear_arith)
        requires
            w == u / dr,
            u == nr - dr,
            dr > 0 as real,
    ;
    assert(d3 > 0 as real) by (nonlinear_arith)
        requires
            d3 == dr * dr * dr,
            dr > 0 as real,
    ;
    assert(u == w * dr) by (nonlinear_arith)
        requires
            w == u / dr,
            dr > 0 as real,
    ;
    assert(u * u * u == (w * w * w) * d3) by (nonlinear_arith)
        requires
            u == w * dr,
            d3 == dr * dr * dr,
    ;
    assert(u * u * dr == (w * w) * d3) by (nonlinear_arith)
        requires
            u == w * dr,
            d3 == dr * dr * dr,
    ;
    let c1 = back_c1();
    assert(c1 * k == 170158 as real) by (nonlinear_arith)
        requires
            c1 == 170158 as real / 100000 as real,
            k == 100000 as real,
    ;
    let body = 1 as real + (c1 + 1 as real) * (w * w * w) + c1 * (w * w);
    assert(top == body * (k * d3)) by (nonlinear_arith)
        requires
            top == k * d3 + 270158 as real * ((w * w * w) * d3) + 170158 as real * ((w * w) * d3),
            body == 1 as real + (c1 + 1 as real) * (w * w * w) + c1 * (w * w),
            c1 * k == 170158 as real,
            k == 100000 as real,
    ;
    assert(top / (k * d3) == body) by (nonlinear_arith)
        requires
            top == body * (k * d3),
            k * d3 > 0 as real,
    ;
}

/// The quadratic curve starts at 0 and ends at 1.
pub proof fn lemma_quad_endpoints()
    ensures
        quad(0 as real) == 0 as real,
        quad(1 as real) == 1 as real,
{
}

/// The quadratic curve never falls as its argument grows within the unit
/// interval.
pub proof fn lemma_quad_monotone(a: real, b: real)
    requires
        0 as real <= a <= b <= 1 as real,
    ensures
        quad(a) <= quad(b),
{
    assert(a * (2 as real - a) <= b * (2 as real - b)) by (nonlinear_arith)
        requires
            0 as real <= a <= b <= 1 as real,
    ;
}

/// On the unit interval the quadratic curve stays within it.
pub proof fn lemma_quad_in_unit(t: real)
    requires
        0 as real <= t <= 1 as real,
    ensures
        0 as real <= quad(t) <= 1 as real,
{
    assert(0 as real <= t * (2 as real - t) <= 1 as real) by (nonlinear_arith)
        requires
            0 as real <= t <= 1 as real,
    ;
}

/// The cubic curve starts at 0 and ends at 1.
pub proof fn lemma_cubic_endpoints()
    ensures
        cubic(0 as real) == 0 as real,
        cubic(1 as real) == 1 as real,
{
}

/// The cubic curve never falls as its argument grows within the unit interval.
pub proof fn lemma_cubic_monotone(a: real, b: real)
    requires
        0 as real <= a <= b <= 1 as real,
    ensures
        cubic(a) <= cubic(b),
{
    let x = 1 as real - a;
    let y = 1 as real - b;
    assert(y * y <= x * x) by (nonlinear_arith)
        requires
            0 as real <= y <= x,
    ;
    assert(y * y * y <= x * x * x) by (nonlinear_arith)
        requires
            0 as real <= y <= x,
            y * y <= x * x,
    ;
}

/// On the unit interval the cubic curve stays within it.
pub proof fn lemma_cubic_in_unit(t: real)
    requires
        0 as real <= t <= 1 as real,
    ensures
        0 as real <= cubic(t) <= 1 as real,
{
    let x = 1 as real - t;
    assert(0 as real <= x * x <= 1 as real) by (nonlinear_arith)
        requires
            0 as real <= x <= 1 as real,
    ;
    assert(0 as real <= x * x * x <= 1 as real) by (nonlinear_arith)
        requires
            0 as real <= x <= 1 as real,
            0 as real <= x * x <= 1 as real,
    ;
}

/// The back curve ends at exactly 1.
pub proof fn lemma_back_ends_at_one()
    ensures
        back(1 as real) == 1 as real,
{
    let z = 1 as real - 1 as real;
    assert(z * z == 0 as real) by (nonlinear_arith)
        requires
            z == 0 as real,
    ;
    assert(z * z * z == 0 as real) by (nonlinear_arith)
        requires
            z == 0 as real,
    ;
    assert((back_c1() + 1 as real) * (z * z * z) == 0 as real) by (nonlinear_arith)
        requires
            z * z * z == 0 as real,
    ;
    assert(back_c1() * (z * z) == 0 as real) by (nonlinear_arith)
        requires
            z * z == 0 as real,
    ;
}

/// The back curve starts at 0.
pub proof fn lemma_back_starts_at_zero()
    ensures
        back(0 as real) == 0 as real,
{
    let z = 0 as real - 1 as real;
    assert(z * z == 1 as real) by (nonlinear_arith)
        requires
            z == 0 as real - 1 as real,
    ;
    assert(z * z * z == z) by (nonlinear_arith)
        requires
            z * z == 1 as real,
    ;
    let c1 = back_c1();
    assert((c1 + 1 as real) * z == 0 as real - c1 - 1 as real) by (nonlinear_arith)
        requires
            z == 0 as real - 1 as real,
    ;
    assert(c1 * (1 as real) == c1) by (nonlinear_arith);
}

/// The back curve overshoots: half way through it is already above 1.
pub proof fn lemma_back_overshoots()
    ensures
        back(1 as real / 2 as real) > 1 as real,
{
    let h = 1 as real / 2 as real;
    let z = h - 1 as real;
    assert(z == 0 as real - h);
    assert(z * z == 1 as real / 4 as real) by (nonlinear_arith)
        requires
            z == 0 as real - 1 as real / 2 as real,
    ;
    assert(z * z * z == 0 as real - 1 as real / 8 as real) by (nonlinear_arith)
        requires
            z == 0 as real - 1 as real / 2 as real,
            z * z == 1 as real / 4 as real,
    ;
    let c1 = back_c1();
    assert(c1 > 1 as real) by (nonlinear_arith)
        requires
            c1 == 170158 as real / 100000 as real,
    ;
    assert((c1 + 1 as real) * (0 as real - 1 as real / 8 as real) + c1 * (1 as real / 4 as real)
        > 0 as real) by (nonlinear_arith)
        requires
            c1 > 1 as real,
    ;
}

/// A progress is a number in the unit interval, and 1 exactly when complete.
pub proof fn lemma_progress_value(t: Progress)
    ensures
        0 as real <= t.value() <= 1 as real,
        t.is_complete() <==> t.value() == 1 as real,
        t.elapsed == 0 && t.duration > 0 ==> t.value() == 0 as real,
{
    let nr = t.num() as real;
    let dr = t.den() as real;
    assert(0 as real <= nr / dr <= 1 as real) by (nonlinear_arith)
        requires
            0 as real <= nr <= dr,
            dr > 0 as real,
    ;
    if !t.is_complete() {
        assert(nr / dr < 1 as real) by (nonlinear_arith)
            requires
                0 as real <= nr < dr,
        ;
    } else {
        assert(nr / dr == 1 as real) by (nonlinear_arith)
            requires
                nr == 1 as real,
                dr == 1 as real,
        ;
    }
    if t.elapsed == 0 && t.duration > 0 {
        assert(nr / dr == 0 as real) by (nonlinear_arith)
            requires
                nr == 0 as real,
                dr > 0 as real,
        ;
    }
}

/// The quadratic ease-out of a progress.
pub fn ease_out_quad(t: Progress) -> (r: Ratio)
    ensures
        r == quad_ratio(t.num(), t.den()),
        r.wf(),
        r.in_unit(),
        r.den <= MAX_SLIDE_DEN,
        r.value() == quad(t.value()),
{
    let f = t.fraction();
    let n: i128 = f.num;
    let d: i128 = f.den;
    proof {
        assert(0 <= n * (2 * d - n) <= d * d) by (nonlinear_arith)
            requires
                0 <= n <= d,
        ;
        assert(0 < d * d <= 0xffff * 0xffff) by (nonlinear_arith)
            requires
                0 < d <= 0xffff,
        ;
        lemma_quad_ratio_value(n as int, d as int);
    }
    Ratio { num: n * (2 * d - n), den: d * d }
}

/// The cubic ease-out of a progress.
pub fn ease_out_cubic(t: Progress) -> (r: Ratio)
    ensures
        r == cubic_ratio(t.num(), t.den()),
        r.wf(),
        r.in_unit(),
        r.den <= MAX_SLIDE_DEN,
        r.value() == cubic(t.value()),
{
    let f = t.fraction();
    let n: i128 = f.num;
    let d: i128 = f.den;
    let u: i128 = d - n;
    proof {
        assert(0 < d * d <= 0xffff * 0xffff) by (nonlinear_arith)
            requires
                0 < d <= 0xffff,
        ;
        assert(0 < d * d * d <= 0xffff * 0xffff * 0xffff) by (nonlinear_arith)
            requires
                0 < d <= 0xffff,
                0 < d * d <= 0xffff * 0xffff,
        ;
        assert(0 <= u * u <= d * d) by (nonlinear_arith)
            requires
                0 <= u <= d,
        ;
        assert(0 <= u * u * u <= d * d * d) by (nonlinear_arith)
            requires
                0 <= u <= d,
                0 <= u * u <= d * d,
        ;
        lemma_cubic_ratio_value(n as int, d as int);
    }
    Ratio { num: d * d * d - u * u * u, den: d * d * d }
}

/// The back ease-out of a progress. The result may lie above 1.
pub fn ease_out_back(t: Progress) -> (r: Ratio)
    ensures
        r == back_ratio(t.num(), t.den()),
        r.wf(),
        r.den <= 100000 * (0xffff * 0xffff * 0xffff),
        -2 * r.den <= r.num <= 3 * r.den,
        r.value() == back(t.value()),
{
    let f = t.fraction();
    let n: i128 = f.num;
    let d: i128 = f.den;
    let u: i128 = n - d;
    proof {
        assert(0 < d * d <= 0xffff * 0xffff) by (nonlinear_arith)
            requires
                0 < d <= 0xffff,
        ;
        assert(0 < d * d * d <= 0xffff * 0xffff * 0xffff) by (nonlinear_arith)
            requires
                0 < d <= 0xffff,
                0 < d * d <= 0xffff * 0xffff,
        ;
        assert(0 <= u * u <= d * d) by (nonlinear_arith)
            requires
                -d <= u <= 0,
        ;
        assert(-(d * d * d) <= u * u * u <= 0) by (nonlinear_arith)
            requires
                -d <= u <= 0,
                0 < d,
                0 <= u * u <= d * d,
        ;
        assert(0 <= u * u * d <= d * d * d) by (nonlinear_arith)
            requires
                0 < d,
                0 <= u * u <= d * d,
        ;
        lemma_back_ratio_value(n as int, d as int);
    }
    let d3: i128 = d * d * d;
    Ratio { num: 100000 * d3 + 270158 * (u * u * u) + 170158 * (u * u * d), den: 100000 * d3 }
}

/// One surface's animation clock.
///
/// While `phase` is `Idle` the other fields carry no meaning.
#[derive(Debug, Clone, Copy, PartialEq, Eq, Structural)]
pub struct AnimationState {
    pub phase: AnimType,
    pub start_ms: u64,
    pub duration_ms: u16,
}

/// What one tick found on a clock.
#[derive(Debug, Clone, Copy, PartialEq, Eq, Structural)]
pub enum ClockStep {
    /// The clock was idle and stays so.
    Asleep,
    /// The animation is under way, this far along.
    Running { kind: AnimType, progress: Progress },
    /// The animation of this kind reached its end with this tick; the clock is
    /// idle again.
    Finished { kind: AnimType },
}

impl AnimationState {
    /// Whether an animation is under way.
    pub open spec fn is_active(self) -> bool {
        self.phase != AnimType::Idle
    }

    /// The milliseconds run at `now_ms`; a reading before the start counts as
    /// the start.
    pub open spec fn elapsed_at(self, now_ms: u64) -> int {
        if now_ms >= self.start_ms {
            now_ms - self.start_ms
        } else {
            0
        }
    }

    /// The progress at `now_ms`.
    pub open spec fn progress_at(self, now_ms: u64) -> Progress {
        let e = self.elapsed_at(now_ms);
        Progress {
            elapsed: if e >= self.duration_ms {
                self.duration_ms
            } else {
                e as u16
            },
            duration: self.duration_ms,
        }
    }

    /// The clock after a request to start `kind` at `now_ms`.
    ///
    /// A request to exit while an exit is under way changes nothing, so that
    /// the exit keeps its progress. A request for `Idle` stops the clock. Any
    /// other request starts the animation from its beginning.
    pub open spec fn started(self, kind: AnimType, duration_ms: u16, now_ms: u64) -> AnimationState {
        if kind == AnimType::Exiting && self.phase == AnimType::Exiting {
            self
        } else {
            AnimationState { phase: kind, start_ms: now_ms, duration_ms }
        }
    }

    /// What a tick at `now_ms` finds.
    pub open spec fn step_at(self, now_ms: u64) -> ClockStep {
        if self.phase == AnimType::Idle {
            ClockStep::Asleep
        } else if self.progress_at(now_ms).is_complete() {
            ClockStep::Finished { kind: self.phase }
        } else {
            ClockStep::Running { kind: self.phase, progress: self.progress_at(now_ms) }
        }
    }

    /// The clock after a tick at `now_ms`: unchanged while the animation runs,
    /// idle once it has reached its end.
    pub open spec fn ticked(self, now_ms: u64) -> AnimationState {
        if self.is_active() && self.progress_at(now_ms).is_complete() {
            AnimationState { phase: AnimType::Idle, ..self }
        } else {
            self
        }
    }

    /// A clock at rest.
    pub fn idle() -> (clock: AnimationState)
        ensures
            clock == (AnimationState { phase: AnimType::Idle, start_ms: 0, duration_ms: 0 }),
            !clock.is_active(),
    {
        AnimationState { phase: AnimType::Idle, start_ms: 0, duration_ms: 0 }
    }

    /// Whether an animation is under way.
    pub fn active(&self) -> (yes: bool)
        ensures
            yes == self.is_active(),
    {
        self.phase != AnimType::Idle
    }

    /// The progress at `now_ms`.
    pub fn progress(&self, now_ms: u64) -> (p: Progress)
        ensures
            p == self.progress_at(now_ms),
    {
        let elapsed: u64 = if now_ms >= self.start_ms {
            now_ms - self.start_ms
        } else {
            0
        };
        Progress::new(elapsed, self.duration_ms)
    }

    /// Starts an animation of `kind` lasting `duration_ms` at `now_ms`.
    pub fn start(&mut self, kind: AnimType, duration_ms: u16, now_ms: u64)
        ensures
            *final(self) == old(self).started(kind, duration_ms, now_ms),
            kind == AnimType::Exiting && old(self).phase == AnimType::Exiting ==> *final(self)
                == *old(self),
            final(self).phase == kind,
    {
        if kind == AnimType::Exiting && self.phase == AnimType::Exiting {
            return ;
        }
        self.phase = kind;
        self.start_ms = now_ms;
        self.duration_ms = duration_ms;
    }

    /// Stops the clock where it stands.
    pub fn stop(&mut self)
        ensures
            *final(self) == (AnimationState { phase: AnimType::Idle, ..*old(self) }),
    {
        self.phase = AnimType::Idle;
    }

    /// Advances the clock to `now_ms` and reports what it found.
    pub fn tick(&mut self, now_ms: u64) -> (step: ClockStep)
        ensures
            step == old(self).step_at(now_ms),
            *final(self) == old(self).ticked(now_ms),
            step is Running ==> *final(self) == *old(self),
            step is Finished ==> !final(self).is_active(),
    {
        if self.phase == AnimType::Idle {
            return ClockStep::Asleep;
        }
        let p = self.progress(now_ms);
        if p.complete() {
            let kind = self.phase;
            self.phase = AnimType::Idle;
            ClockStep::Finished { kind }
        } else {
            ClockStep::Running { kind: self.phase, progress: p }
        }
    }
}

/// Of two readings of one clock, the later is at least as far along: an
/// animation never runs backwards.
pub proof fn lemma_progress_never_falls(clock: AnimationState, earlier: u64, later: u64)
    requires
        earlier <= later,
    ensures
        clock.progress_at(earlier).value() <= clock.progress_at(later).value(),
        clock.progress_at(earlier).is_complete() ==> clock.progress_at(later).is_complete(),
{
    let a = clock.progress_at(earlier);
    let b = clock.progress_at(later);
    lemma_progress_value(a);
    lemma_progress_value(b);
    if !b.is_complete() {
        let x = a.elapsed as real;
        let y = b.elapsed as real;
        let d = clock.duration_ms as real;
        assert(x / d <= y / d) by (nonlinear_arith)
            requires
                x <= y,
                d > 0 as real,
        ;
    }
}

/// What the eased curves make of two readings of one clock: the quadratic and
/// the cubic value of the later reading are at least those of the earlier.
pub proof fn lemma_eased_progress_never_falls(clock: AnimationState, earlier: u64, later: u64)
    requires
        earlier <= later,
    ensures
        quad(clock.progress_at(earlier).value()) <= quad(clock.progress_at(later).value()),
        cubic(clock.progress_at(earlier).value()) <= cubic(clock.progress_at(later).value()),
{
    let a = clock.progress_at(earlier);
    let b = clock.progress_at(later);
    lemma_progress_never_falls(clock, earlier, later);
    lemma_progress_value(a);
    lemma_progress_value(b);
    lemma_quad_monotone(a.value(), b.value());
    lemma_cubic_monotone(a.value(), b.value());
}

/// A tick leaves a running animation alone until its duration has passed,
/// and resolves it to idle with the first tick at or after that.
pub proof fn lemma_clock_resolves_at_its_duration(clock: AnimationState, now_ms: u64)
    requires
        clock.is_active(),
    ensures
        clock.elapsed_at(now_ms) < clock.duration_ms ==> clock.ticked(now_ms) == clock
            && clock.step_at(now_ms) is Running,
        clock.elapsed_at(now_ms) >= clock.duration_ms ==> !clock.ticked(now_ms).is_active()
            && clock.step_at(now_ms) == (ClockStep::Finished { kind: clock.phase }),
        now_ms >= clock.start_ms + clock.duration_ms ==> !clock.ticked(now_ms).is_active(),
        !clock.ticked(now_ms).is_active() ==> clock.ticked(now_ms).ticked(now_ms)
            == clock.ticked(now_ms),
{
}

} // verus!
