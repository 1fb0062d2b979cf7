//! Motion along a fixed line segment, driven by a repeating timer.

use crate::geometry::Vec2;
use std::ops::Not;
use std::time::Duration;
use vstd::arithmetic::div_mod::{
    lemma_div_is_ordered, lemma_div_multiples_vanish, lemma_mod_add_multiples_vanish,
    lemma_small_mod,
};
use vstd::prelude::*;

verus! {

/// Which way a back-and-forth mover is currently travelling.
#[derive(Clone, Copy, Debug, PartialEq, Eq, Structural)]
pub enum Direction {
    Forward,
    Backward,
}

impl Direction {
    /// The opposite direction.
    pub open spec fn reversed(self) -> Direction {
        match self {
            Direction::Forward => Direction::Backward,
            Direction::Backward => Direction::Forward,
        }
    }
}

impl vstd::std_specs::ops::NotSpecImpl for Direction {
    open spec fn obeys_not_spec() -> bool {
        true
    }

    open spec fn not_req(self) -> bool {
        true
    }

    open spec fn not_spec(self) -> Direction {
        self.reversed()
    }
}

impl std::ops::Not for Direction {
    type Output = Direction;

    fn not(self) -> (opposite: Direction) {
        match self {
            Direction::Forward => Direction::Backward,
            Direction::Backward => Direction::Forward,
        }
    }
}

impl Default for Direction {
    fn default() -> (direction: Self)
        ensures
            direction == Direction::Forward,
    {
        Direction::Forward
    }
}

/// How the cycle fraction of the timer is turned into a place on the line.
#[derive(Clone, Copy, Debug, PartialEq, Eq, Structural)]
pub enum InterpolationMode {
    /// Every cycle runs from the first endpoint to the second.
    Wrapping,
    /// Cycles alternate between running forward and running backward.
    BackAndForth(Direction),
}

impl InterpolationMode {
    /// The mode after a timer tick: a completed cycle turns a back-and-forth
    /// mover around, anything else leaves the mode as it is.
    pub open spec fn after_cycle(self, cycle_completed: bool) -> InterpolationMode {
        match self {
            InterpolationMode::BackAndForth(direction) if cycle_completed =>
                InterpolationMode::BackAndForth(direction.reversed()),
            _ => self,
        }
    }

    /// Computes [`InterpolationMode::after_cycle`].
    pub fn advance(self, cycle_completed: bool) -> (next: InterpolationMode)
        ensures
            next == self.after_cycle(cycle_completed),
    {
        match self {
            InterpolationMode::BackAndForth(direction) => {
                if cycle_completed {
                    InterpolationMode::BackAndForth(direction.not())
                } else {
                    self
                }
            },
            InterpolationMode::Wrapping => self,
        }
    }

    /// Whether the cycle fraction is to be read from the far end.
    pub open spec fn runs_backward(self) -> bool {
        self == InterpolationMode::BackAndForth(Direction::Backward)
    }
}

impl Default for InterpolationMode {
    fn default() -> (mode: Self)
        ensures
            mode == InterpolationMode::Wrapping,
    {
        InterpolationMode::Wrapping
    }
}

/// Elapsed time of a repeating timer once `total` nanoseconds have
/// accumulated in a cycle of `duration` nanoseconds.
pub open spec fn wrapped_elapsed(duration: int, total: int) -> int {
    if total < duration {
        total
    } else if duration == 0 {
        0
    } else {
        total % duration
    }
}

/// Ticks a repeating `bevy::time::Timer` of `duration` nanoseconds that
/// stands at `elapsed` by `delta` nanoseconds, and returns where it stands
/// afterwards and whether it reports itself finished.
///
/// The contract restates `Timer::tick` for an unpaused repeating timer: the
/// timer is finished exactly when the accumulated time reaches the duration,
/// and it then keeps the remainder of the accumulated time by the duration
/// (zero for a timer of zero duration).
#[verifier::external_body]
fn tick_repeating_timer(duration: u64, elapsed: u64, delta: u64) -> (after: (u64, bool))
    ensures
        after.0 == wrapped_elapsed(duration as int, elapsed + delta),
        after.1 == (elapsed + delta >= duration),
{
    let mut timer = bevy::time::Timer::new(
        Duration::from_nanos(duration),
        bevy::time::TimerMode::Repeating,
    );
    timer.set_elapsed(Duration::from_nanos(elapsed));
    timer.tick(Duration::from_nanos(delta));
    (timer.elapsed().as_nanos() as u64, timer.finished())
}

/// A repeating timer, counted in nanoseconds.
#[derive(Clone, Copy, Debug, PartialEq, Eq, Structural)]
pub struct CycleTimer {
    /// Length of one cycle.
    pub duration: u64,
    /// Time spent in the current cycle.
    pub elapsed: u64,
}

impl CycleTimer {
    /// A timer at the start of its first cycle.
    pub fn new(duration: u64) -> (timer: Self)
        ensures
            timer == (CycleTimer { duration, elapsed: 0 }),
    {
        CycleTimer { duration, elapsed: 0 }
    }

    /// Whether advancing by `delta` completes at least one cycle.
    pub open spec fn completes(self, delta: u64) -> bool {
        self.elapsed + delta >= self.duration
    }

    /// The timer after advancing by `delta`.
    pub open spec fn after_tick(self, delta: u64) -> CycleTimer {
        CycleTimer {
            duration: self.duration,
            elapsed: wrapped_elapsed(self.duration as int, self.elapsed + delta) as u64,
        }
    }

    /// Whether the timer stands inside its cycle, as it does after every tick.
    pub open spec fn settled(self) -> bool {
        self.elapsed < self.duration || (self.duration == 0 && self.elapsed == 0)
    }

    /// Advances the timer by `delta` and reports whether a cycle was
    /// completed.
    pub fn tick(&mut self, delta: u64) -> (finished: bool)
        ensures
            *final(self) == old(self).after_tick(delta),
            finished == old(self).completes(delta),
            final(self).settled(),
    {
        let after = tick_repeating_timer(self.duration, self.elapsed, delta);
        self.elapsed = after.0;
        after.1
    }

    /// Numerator of the cycle fraction.
    pub open spec fn fraction_numerator(self) -> int {
        if self.duration == 0 {
            1
        } else {
            self.elapsed as int
        }
    }

    /// Denominator of the cycle fraction.
    pub open spec fn fraction_denominator(self) -> int {
        if self.duration == 0 {
            1
        } else {
            self.duration as int
        }
    }

    /// The cycle fraction as a pair of numerator and denominator. A timer of
    /// zero duration is always at the end of its cycle.
    pub fn fraction(&self) -> (ratio: (u64, u64))
        ensures
            ratio.0 == self.fraction_numerator(),
            ratio.1 == self.fraction_denominator(),
    {
        if self.duration == 0 {
            (1, 1)
        } else {
            (self.elapsed, self.duration)
        }
    }
}

impl Default for CycleTimer {
    fn default() -> (timer: Self)
        ensures
            timer == (CycleTimer { duration: 0, elapsed: 0 }),
    {
        CycleTimer { duration: 0, elapsed: 0 }
    }
}

/// The point reached after covering `numerator / denominator` of the way
/// from `a` to `b`, with the distance covered rounded toward zero.
pub open spec fn interpolate(a: int, b: int, numerator: int, denominator: int) -> int {
    if b >= a {
        a + ((b - a) * numerator) / denominator
    } else {
        a - ((a - b) * numerator) / denominator
    }
}

/// The part `numerator / denominator` of a length is no longer than the length.
proof fn lemma_part_within_whole(length: int, numerator: int, denominator: int)
    requires
        0 <= length,
        0 <= numerator <= denominator,
        0 < denominator,
    ensures
        0 <= (length * numerator) / denominator <= length,
        numerator == 0 ==> (length * numerator) / denominator == 0,
        numerator == denominator ==> (length * numerator) / denominator == length,
{
    assert(0 <= length * numerator <= length * denominator) by (nonlinear_arith)
        requires
            0 <= length,
            0 <= numerator <= denominator,
    ;
    assert(length * denominator == denominator * length) by (nonlinear_arith);
    lemma_div_is_ordered(0, length * numerator, denominator);
    lemma_div_is_ordered(length * numerator, length * denominator, denominator);
    lemma_div_multiples_vanish(length, denominator);
    if numerator == 0 {
        assert(length * numerator == 0) by (nonlinear_arith)
            requires
                numerator == 0,
        ;
    }
}

/// An interpolated point lies between the two ends and meets them at the
/// fractions zero and one.
pub proof fn lemma_interpolate_between(a: int, b: int, numerator: int, denominator: int)
    requires
        0 <= numerator <= denominator,
        0 < denominator,
    ensures
        a <= b ==> a <= interpolate(a, b, numerator, denominator) <= b,
        b <= a ==> b <= interpolate(a, b, numerator, denominator) <= a,
        numerator == 0 ==> interpolate(a, b, numerator, denominator) == a,
        numerator == denominator ==> interpolate(a, b, numerator, denominator) == b,
{
    if b >= a {
        lemma_part_within_whole(b - a, numerator, denominator);
    } else {
        lemma_part_within_whole(a - b, numerator, denominator);
    }
}

/// Computes [`interpolate`] for a fraction between zero and one.
pub fn lerp(a: i64, b: i64, numerator: u64, denominator: u64) -> (at: i64)
    requires
        numerator <= denominator,
        0 < denominator,
    ensures
        at == interpolate(a as int, b as int, numerator as int, denominator as int),
{
    let length: u128 = if b >= a {
        (b as i128 - a as i128) as u128
    } else {
        (a as i128 - b as i128) as u128
    };
    proof {
        lemma_part_within_whole(length as int, numerator as int, denominator as int);
        assert(length * numerator <= 0xffff_ffff_ffff_ffff * 0xffff_ffff_ffff_ffff)
            by (nonlinear_arith)
            requires
                0 <= length <= 0xffff_ffff_ffff_ffff,
                0 <= numerator <= 0xffff_ffff_ffff_ffff,
        ;
    }
    let covered: u128 = length * (numerator as u128) / (denominator as u128);
    if b >= a {
        (a as i128 + covered as i128) as i64
    } else {
        (a as i128 - covered as i128) as i64
    }
}

/// The two endpoints of a patrol path.
#[derive(Clone, Copy, Debug, PartialEq, Eq, Structural)]
pub struct Line(pub Vec2, pub Vec2);

impl Line {
    /// The point `numerator / denominator` of the way from the first endpoint
    /// to the second.
    pub open spec fn at(self, numerator: int, denominator: int) -> Vec2 {
        Vec2 {
            x: interpolate(self.0.x as int, self.1.x as int, numerator, denominator) as i64,
            y: interpolate(self.0.y as int, self.1.y as int, numerator, denominator) as i64,
        }
    }

    /// Computes [`Line::at`] for a fraction between zero and one.
    pub fn lerp(&self, numerator: u64, denominator: u64) -> (point: Vec2)
        requires
            numerator <= denominator,
            0 < denominator,
        ensures
            point == self.at(numerator as int, denominator as int),
    {
        Vec2 {
            x: lerp(self.0.x, self.1.x, numerator, denominator),
            y: lerp(self.0.y, self.1.y, numerator, denominator),
        }
    }
}

/// The moving part of an interpolated entity: its timer and how the timer is
/// read.
#[derive(Clone, Copy, Debug, PartialEq, Eq, Structural)]
pub struct Interpolator {
    pub timer: CycleTimer,
    pub mode: InterpolationMode,
}

impl Interpolator {
    /// The interpolator after `delta` nanoseconds: the timer has advanced, and
    /// a completed cycle has turned a back-and-forth mover around.
    pub open spec fn after_step(self, delta: u64) -> Interpolator {
        Interpolator {
            timer: self.timer.after_tick(delta),
            mode: self.mode.after_cycle(self.timer.completes(delta)),
        }
    }

    /// Numerator of the effective parameter: the cycle fraction, or what is
    /// left of the cycle while running backward.
    pub open spec fn parameter_numerator(self) -> int {
        if self.mode.runs_backward() {
            self.timer.fraction_denominator() - self.timer.fraction_numerator()
        } else {
            self.timer.fraction_numerator()
        }
    }

    /// Denominator of the effective parameter.
    pub open spec fn parameter_denominator(self) -> int {
        self.timer.fraction_denominator()
    }

    /// Computes [`Interpolator::after_step`] in place.
    pub fn step(&mut self, delta: u64)
        ensures
            *final(self) == old(self).after_step(delta),
            final(self).timer.settled(),
    {
        let finished = self.timer.tick(delta);
        self.mode = self.mode.advance(finished);
    }

    /// The effective parameter as a pair of numerator and denominator.
    pub fn parameter(&self) -> (ratio: (u64, u64))
        requires
            self.timer.settled(),
        ensures
            ratio.0 == self.parameter_numerator(),
            ratio.1 == self.parameter_denominator(),
            ratio.0 <= ratio.1,
            0 < ratio.1,
    {
        let fraction = self.timer.fraction();
        match self.mode {
            InterpolationMode::BackAndForth(Direction::Backward) => (
                fraction.1 - fraction.0,
                fraction.1,
            ),
            _ => fraction,
        }
    }
}

impl Default for Interpolator {
    fn default() -> (interpolator: Self)
        ensures
            interpolator == (Interpolator {
                timer: CycleTimer { duration: 0, elapsed: 0 },
                mode: InterpolationMode::Wrapping,
            }),
    {
        Interpolator { timer: CycleTimer::default(), mode: InterpolationMode::default() }
    }
}

/// A patrol path together with the interpolator that moves along it.
#[derive(Clone, Copy, Debug, PartialEq, Eq, Structural)]
pub struct LineInterpolatorBundle {
    pub line: Line,
    pub interpolator: Interpolator,
}

impl LineInterpolatorBundle {
    /// Where the bundle places its entity.
    pub open spec fn position(self) -> Vec2 {
        self.line.at(
            self.interpolator.parameter_numerator(),
            self.interpolator.parameter_denominator(),
        )
    }

    /// The bundle after `delta` nanoseconds.
    pub open spec fn after_step(self, delta: u64) -> LineInterpolatorBundle {
        LineInterpolatorBundle {
            line: self.line,
            interpolator: self.interpolator.after_step(delta),
        }
    }

    /// Advances the interpolator by `delta` nanoseconds and returns the place
    /// on the line that it then stands for.
    pub fn step(&mut self, delta: u64) -> (position: Vec2)
        ensures
            *final(self) == old(self).after_step(delta),
            position == final(self).position(),
    {
        self.interpolator.step(delta);
        let parameter = self.interpolator.parameter();
        self.line.lerp(parameter.0, parameter.1)
    }
}

/// Turning around twice restores the direction.
pub proof fn lemma_reversed_twice(direction: Direction)
    ensures
        direction.reversed().reversed() == direction,
{
}

/// At the start of a cycle a mover stands on the first endpoint while running
/// forward or wrapping, and on the second endpoint while running backward.
pub proof fn lemma_cycle_start_endpoints(bundle: LineInterpolatorBundle)
    requires
        bundle.interpolator.timer.duration > 0,
        bundle.interpolator.timer.elapsed == 0,
    ensures
        bundle.interpolator.mode.runs_backward() ==> bundle.position() == bundle.line.1,
        !bundle.interpolator.mode.runs_backward() ==> bundle.position() == bundle.line.0,
{
    let line = bundle.line;
    let duration = bundle.interpolator.timer.duration as int;
    lemma_interpolate_between(line.0.x as int, line.1.x as int, 0, duration);
    lemma_interpolate_between(line.0.y as int, line.1.y as int, 0, duration);
    lemma_interpolate_between(line.0.x as int, line.1.x as int, duration, duration);
    lemma_interpolate_between(line.0.y as int, line.1.y as int, duration, duration);
}

/// One whole cycle keeps the place in the cycle and turns a back-and-forth
/// mover around; a wrapping mover is left as it was.
pub proof fn lemma_one_cycle(interpolator: Interpolator)
    requires
        interpolator.timer.duration > 0,
        interpolator.timer.elapsed < interpolator.timer.duration,
    ensures
        interpolator.after_step(interpolator.timer.duration).timer == interpolator.timer,
        interpolator.after_step(interpolator.timer.duration).mode == interpolator.mode.after_cycle(
            true,
        ),
{
    let duration = interpolator.timer.duration as int;
    let elapsed = interpolator.timer.elapsed as int;
    lemma_mod_add_multiples_vanish(elapsed, duration);
    lemma_small_mod(elapsed as nat, duration as nat);
}

/// Two whole cycles bring a mover back to the state it started from, and so
/// to the same place on its line, heading the same way.
pub proof fn lemma_two_cycles_round_trip(bundle: LineInterpolatorBundle)
    requires
        bundle.interpolator.timer.duration > 0,
        bundle.interpolator.timer.elapsed < bundle.interpolator.timer.duration,
    ensures
        bundle.after_step(bundle.interpolator.timer.duration).after_step(
            bundle.interpolator.timer.duration,
        ) == bundle,
        bundle.after_step(bundle.interpolator.timer.duration).after_step(
            bundle.interpolator.timer.duration,
        ).position() == bundle.position(),
{
    let once = bundle.interpolator.after_step(bundle.interpolator.timer.duration);
    lemma_one_cycle(bundle.interpolator);
    lemma_one_cycle(once);
    match bundle.interpolator.mode {
        InterpolationMode::BackAndForth(direction) => {
            lemma_reversed_twice(direction);
        },
        InterpolationMode::Wrapping => {},
    }
}

} // verus!
