//! Animations: how far along a run is, and how that progress is eased.
//!
//! Progress is a fixed-point number: `ONE` stands for the whole of the run.
use vstd::prelude::*;

verus! {

/// The fixed-point value of a completed run.
pub const ONE: u64 = 1_000_000;

/// What happens when a run is over.
#[derive(Copy, Clone, Debug, PartialEq, Eq, Structural)]
pub enum AnimationRepeat {
    /// The animation stays at its end.
    Once,
    /// The animation starts again.
    Loop,
    /// The animation runs back and forth.
    PingPong,
}

/// Shapes the progress of an animation.
pub trait EasingFunction {
    /// The eased value of the progress `t`, for `t` in `0 ..= ONE`.
    spec fn eased(t: int) -> int;

    fn ease(t: u64) -> (r: u64)
        requires
            t <= ONE,
        ensures
            r == Self::eased(t as int),
    ;
}

/// `t`.
#[derive(Copy, Clone, Debug, PartialEq, Eq, Structural)]
pub struct Linear;

/// `t * t`.
#[derive(Copy, Clone, Debug, PartialEq, Eq, Structural)]
pub struct Quadratic;

/// `t * t * t`.
#[derive(Copy, Clone, Debug, PartialEq, Eq, Structural)]
pub struct Cubic;

/// `-t * (t - 2)`.
#[derive(Copy, Clone, Debug, PartialEq, Eq, Structural)]
pub struct EaseOutQuadratic;

/// `t * t`.
#[derive(Copy, Clone, Debug, PartialEq, Eq, Structural)]
pub struct EaseInQuadratic;

/// `2 * t * t` in the first half, `-1 + (4 - 2 * t) * t` in the second.
#[derive(Copy, Clone, Debug, PartialEq, Eq, Structural)]
pub struct EaseInOutQuadratic;

impl EasingFunction for Linear {
    open spec fn eased(t: int) -> int {
        t
    }

    fn ease(t: u64) -> (r: u64) {
        t
    }
}

impl EasingFunction for Quadratic {
    open spec fn eased(t: int) -> int {
        t * t / (ONE as int)
    }

    fn ease(t: u64) -> (r: u64) {
        assert(t * t <= ONE * ONE) by (nonlinear_arith)
            requires
                t <= ONE,
        ;
        t * t / ONE
    }
}

impl EasingFunction for Cubic {
    open spec fn eased(t: int) -> int {
        (t * t / (ONE as int)) * t / (ONE as int)
    }

    fn ease(t: u64) -> (r: u64) {
        assert(t * t <= ONE * ONE) by (nonlinear_arith)
            requires
                t <= ONE,
        ;
        let sq = t * t / ONE;
        assert(sq * t <= ONE * ONE) by (nonlinear_arith)
            requires
                t <= ONE,
                sq <= ONE,
        ;
        sq * t / ONE
    }
}

impl EasingFunction for EaseOutQuadratic {
    open spec fn eased(t: int) -> int {
        t * (2 * ONE - t) / (ONE as int)
    }

    fn ease(t: u64) -> (r: u64) {
        assert(t * (2 * ONE - t) <= 2 * ONE * ONE) by (nonlinear_arith)
            requires
                t <= ONE,
        ;
        t * (2 * ONE - t) / ONE
    }
}

impl EasingFunction for EaseInQuadratic {
    open spec fn eased(t: int) -> int {
        t * t / (ONE as int)
    }

    fn ease(t: u64) -> (r: u64) {
        assert(t * t <= ONE * ONE) by (nonlinear_arith)
            requires
                t <= ONE,
        ;
        t * t / ONE
    }
}

impl EasingFunction for EaseInOutQuadratic {
    open spec fn eased(t: int) -> int {
        if 2 * t < ONE {
            2 * t * t / (ONE as int)
        } else {
            (4 * ONE - 2 * t) * t / (ONE as int) - ONE
        }
    }

    fn ease(t: u64) -> (r: u64) {
        if 2 * t < ONE {
            assert(2 * t * t <= ONE * ONE) by (nonlinear_arith)
                requires
                    2 * t < ONE,
            ;
            2 * t * t / ONE
        } else {
            assert(ONE * ONE <= (4 * ONE - 2 * t) * t <= 4 * ONE * ONE) by (nonlinear_arith)
                requires
                    ONE <= 2 * t,
                    t <= ONE,
            ;
            let p = (4 * ONE - 2 * t) * t;
            assert(p / ONE >= ONE) by (nonlinear_arith)
                requires
                    p >= ONE * ONE,
            ;
            p / ONE - ONE
        }
    }
}

/// Every easing function starts at zero and ends at `ONE`.
pub proof fn lemma_easing_ends()
    ensures
        Linear::eased(0) == 0 && Linear::eased(ONE as int) == ONE,
        Quadratic::eased(0) == 0 && Quadratic::eased(ONE as int) == ONE,
        Cubic::eased(0) == 0 && Cubic::eased(ONE as int) == ONE,
        EaseOutQuadratic::eased(0) == 0 && EaseOutQuadratic::eased(ONE as int) == ONE,
        EaseInQuadratic::eased(0) == 0 && EaseInQuadratic::eased(ONE as int) == ONE,
        EaseInOutQuadratic::eased(0) == 0 && EaseInOutQuadratic::eased(ONE as int) == ONE,
{
}

/// A run that began at `start_ms` and takes `duration_ms`.
#[derive(Copy, Clone, Debug, PartialEq, Eq, Structural)]
pub struct Animation {
    pub start_ms: u64,
    pub duration_ms: u64,
    pub repeat: AnimationRepeat,
}

/// The progress of a run, as a fixed-point number that may exceed `ONE`:
/// the time since the start over the duration.  A run without duration is
/// over at once.
pub open spec fn progress(start_ms: u64, duration_ms: u64, now_ms: u64) -> int {
    if now_ms <= start_ms {
        0
    } else if duration_ms == 0 {
        2 * ONE
    } else {
        (now_ms - start_ms) * ONE / (duration_ms as int)
    }
}

/// The point of the run that is shown at progress `t`: a single run stops
/// at its end, a loop starts over, a ping-pong runs back in every second
/// round.
pub open spec fn phase(t: int, repeat: AnimationRepeat) -> int {
    match repeat {
        AnimationRepeat::Once => if t >= ONE {
            ONE as int
        } else {
            t
        },
        AnimationRepeat::Loop => t % (ONE as int),
        AnimationRepeat::PingPong => if t % (2 * ONE) >= ONE {
            2 * ONE - t % (2 * ONE)
        } else {
            t % (2 * ONE)
        },
    }
}

/// The phase is always a point of the run.
pub proof fn lemma_phase_in_range(t: int, repeat: AnimationRepeat)
    requires
        t >= 0,
    ensures
        0 <= phase(t, repeat) <= ONE,
{
}

impl Animation {
    pub open spec fn initial(now_ms: u64) -> Animation {
        Animation { start_ms: now_ms, duration_ms: 1000, repeat: AnimationRepeat::Once }
    }

    /// A single run of one second that begins at `now_ms`.
    pub fn default_at(now_ms: u64) -> (a: Animation)
        ensures
            a == Animation::initial(now_ms),
    {
        Animation { start_ms: now_ms, duration_ms: 1000, repeat: AnimationRepeat::Once }
    }

    /// A run of `duration_ms` that begins at `now_ms`.
    pub fn new(now_ms: u64, duration_ms: u64, repeat: AnimationRepeat) -> (a: Animation)
        ensures
            a == (Animation { start_ms: now_ms, duration_ms, repeat }),
    {
        Animation { start_ms: now_ms, duration_ms, repeat }
    }

    /// Begins the run again at `now_ms`.
    pub fn reset(&mut self, now_ms: u64)
        ensures
            *final(self) == (Animation { start_ms: now_ms, ..*old(self) }),
    {
        self.start_ms = now_ms;
    }

    /// The point of the run that is shown at `now_ms`.
    pub open spec fn spec_phase(self, now_ms: u64) -> int {
        phase(progress(self.start_ms, self.duration_ms, now_ms), self.repeat)
    }

    pub fn phase_at(&self, now_ms: u64) -> (p: u64)
        ensures
            p == self.spec_phase(now_ms),
            p <= ONE,
    {
        if now_ms <= self.start_ms {
            return 0;
        }
        if self.duration_ms == 0 {
            return match self.repeat {
                AnimationRepeat::Once => ONE,
                AnimationRepeat::Loop => 0,
                AnimationRepeat::PingPong => 0,
            };
        }
        let elapsed = (now_ms - self.start_ms) as u128;
        assert(elapsed * ONE <= u64::MAX * ONE) by (nonlinear_arith)
            requires
                elapsed <= u64::MAX,
        ;
        let t = elapsed * ONE as u128 / self.duration_ms as u128;
        match self.repeat {
            AnimationRepeat::Once => if t >= ONE as u128 {
                ONE
            } else {
                t as u64
            },
            AnimationRepeat::Loop => (t % ONE as u128) as u64,
            AnimationRepeat::PingPong => {
                let m = (t % (2 * ONE as u128)) as u64;
                if m >= ONE {
                    2 * ONE - m
                } else {
                    m
                }
            },
        }
    }

    /// The eased value of the animation at `now_ms`.
    pub fn get_value<F: EasingFunction>(&self, now_ms: u64) -> (v: u64)
        ensures
            v == F::eased(self.spec_phase(now_ms)),
    {
        F::ease(self.phase_at(now_ms))
    }
}

} // verus!
