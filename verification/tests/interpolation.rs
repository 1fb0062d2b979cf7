use endless_jumper::interpolation::{
    lerp, CycleTimer, Direction, InterpolationMode, Interpolator, Line, LineInterpolatorBundle,
};
use endless_jumper::Vec2;

fn patrol(mode: InterpolationMode, duration: u64) -> LineInterpolatorBundle {
    LineInterpolatorBundle {
        line: Line(Vec2::new(-335_000, 995_000), Vec2::new(305_000, 1_007_000)),
        interpolator: Interpolator { timer: CycleTimer::new(duration), mode },
    }
}

#[test]
fn direction_not_turns_around() {
    assert_eq!(!Direction::Forward, Direction::Backward);
    assert_eq!(!Direction::Backward, Direction::Forward);
    assert_eq!(!!Direction::Forward, Direction::Forward);
    assert_eq!(!!Direction::Backward, Direction::Backward);
}

#[test]
fn defaults_are_forward_wrapping_and_unstarted() {
    assert_eq!(Direction::default(), Direction::Forward);
    assert_eq!(InterpolationMode::default(), InterpolationMode::Wrapping);
    assert_eq!(CycleTimer::default(), CycleTimer { duration: 0, elapsed: 0 });
    assert_eq!(
        Interpolator::default(),
        Interpolator {
            timer: CycleTimer { duration: 0, elapsed: 0 },
            mode: InterpolationMode::Wrapping
        }
    );
}

#[test]
fn mode_turns_around_only_on_a_completed_cycle() {
    let forward = InterpolationMode::BackAndForth(Direction::Forward);
    let backward = InterpolationMode::BackAndForth(Direction::Backward);
    assert_eq!(forward.advance(true), backward);
    assert_eq!(backward.advance(true), forward);
    assert_eq!(forward.advance(false), forward);
    assert_eq!(backward.advance(false), backward);
    assert_eq!(InterpolationMode::Wrapping.advance(true), InterpolationMode::Wrapping);
    assert_eq!(InterpolationMode::Wrapping.advance(false), InterpolationMode::Wrapping);
}

#[test]
fn timer_keeps_the_remainder_of_a_completed_cycle() {
    let mut timer = CycleTimer::new(1_000);
    assert!(timer.tick(1_500));
    assert_eq!(timer, CycleTimer { duration: 1_000, elapsed: 500 });
    assert!(!timer.tick(100));
    assert_eq!(timer.elapsed, 600);
    assert!(timer.tick(400));
    assert_eq!(timer.elapsed, 0);
    assert!(!timer.tick(999));
    assert_eq!(timer.elapsed, 999);
}

#[test]
fn timer_wraps_over_several_cycles_at_once() {
    let mut timer = CycleTimer::new(1_000);
    assert!(timer.tick(3_500));
    assert_eq!(timer.elapsed, 500);
    assert!(timer.tick(10_000));
    assert_eq!(timer.elapsed, 500);
}

#[test]
fn timer_of_zero_duration_is_always_finished() {
    let mut timer = CycleTimer::default();
    assert!(timer.tick(0));
    assert_eq!(timer.elapsed, 0);
    assert!(timer.tick(12_345));
    assert_eq!(timer.elapsed, 0);
    assert_eq!(timer.fraction(), (1, 1));
}

#[test]
fn timer_settles_when_started_beyond_its_cycle() {
    let mut timer = CycleTimer { duration: 1_000, elapsed: 4_200 };
    assert!(timer.tick(0));
    assert_eq!(timer.elapsed, 200);
}

#[test]
fn timer_handles_the_longest_times() {
    let mut timer = CycleTimer { duration: u64::MAX, elapsed: u64::MAX - 1 };
    assert!(timer.tick(u64::MAX));
    assert_eq!(timer.elapsed, u64::MAX - 1);
    let mut short = CycleTimer { duration: 7, elapsed: 0 };
    assert!(short.tick(u64::MAX));
    assert_eq!(short.elapsed, u64::MAX % 7);
}

#[test]
fn timer_fraction_is_elapsed_over_duration() {
    let mut timer = CycleTimer::new(1_250_000_000);
    assert_eq!(timer.fraction(), (0, 1_250_000_000));
    timer.tick(312_500_000);
    assert_eq!(timer.fraction(), (312_500_000, 1_250_000_000));
}

#[test]
fn lerp_rounds_the_covered_distance_toward_zero() {
    assert_eq!(lerp(0, 1_000, 1, 4), 250);
    assert_eq!(lerp(0, 1_000, 1, 3), 333);
    assert_eq!(lerp(1_000, 0, 1, 3), 667);
    assert_eq!(lerp(-1_000, 1_000, 3, 4), 500);
    assert_eq!(lerp(10, -10, 1, 7), 8);
    assert_eq!(lerp(-10, 10, 1, 7), -8);
}

#[test]
fn lerp_meets_both_ends() {
    assert_eq!(lerp(-335_000, 305_000, 0, 9), -335_000);
    assert_eq!(lerp(-335_000, 305_000, 9, 9), 305_000);
    assert_eq!(lerp(i64::MIN, i64::MAX, 0, u64::MAX), i64::MIN);
    assert_eq!(lerp(i64::MIN, i64::MAX, u64::MAX, u64::MAX), i64::MAX);
    assert_eq!(lerp(i64::MAX, i64::MIN, u64::MAX, u64::MAX), i64::MIN);
    assert_eq!(lerp(i64::MIN, i64::MAX, 1, 2), -1);
    assert_eq!(lerp(5, 5, 1, 2), 5);
}

#[test]
fn line_lerp_interpolates_each_axis() {
    let line = Line(Vec2::new(-335_000, 995_000), Vec2::new(305_000, 1_007_000));
    assert_eq!(line.lerp(0, 1), line.0);
    assert_eq!(line.lerp(1, 1), line.1);
    assert_eq!(line.lerp(1, 2), Vec2::new(-15_000, 1_001_000));
    assert_eq!(line.lerp(3, 4), Vec2::new(145_000, 1_004_000));
}

#[test]
fn back_and_forth_runs_forward_then_backward() {
    let mut bundle = patrol(InterpolationMode::BackAndForth(Direction::Forward), 1_250_000_000);
    assert_eq!(bundle.step(625_000_000), Vec2::new(-15_000, 1_001_000));
    assert_eq!(bundle.interpolator.mode, InterpolationMode::BackAndForth(Direction::Forward));
    assert_eq!(bundle.step(625_000_000), Vec2::new(305_000, 1_007_000));
    assert_eq!(bundle.interpolator.mode, InterpolationMode::BackAndForth(Direction::Backward));
    assert_eq!(bundle.interpolator.timer.elapsed, 0);
    assert_eq!(bundle.step(312_500_000), Vec2::new(145_000, 1_004_000));
    assert_eq!(bundle.step(937_500_000), Vec2::new(-335_000, 995_000));
    assert_eq!(bundle.interpolator.mode, InterpolationMode::BackAndForth(Direction::Forward));
}

#[test]
fn back_and_forth_round_trip_over_two_cycles() {
    let duration = 1_250_000_000;
    for start in [0u64, 1, 400_000_000, 1_249_999_999] {
        for direction in [Direction::Forward, Direction::Backward] {
            let mut bundle = patrol(InterpolationMode::BackAndForth(direction), duration);
            let first = bundle.step(start);
            let before = bundle;
            let turned = bundle.step(duration);
            assert_eq!(bundle.interpolator.timer, before.interpolator.timer);
            assert_eq!(bundle.interpolator.mode, InterpolationMode::BackAndForth(!direction));
            let back = bundle.step(duration);
            assert_eq!(bundle, before);
            assert_eq!(back, first);
            if start == 0 {
                let (home, away) = match direction {
                    Direction::Forward => (bundle.line.0, bundle.line.1),
                    Direction::Backward => (bundle.line.1, bundle.line.0),
                };
                assert_eq!(first, home);
                assert_eq!(turned, away);
            }
        }
    }
}

#[test]
fn wrapping_starts_every_cycle_at_the_first_endpoint() {
    let mut bundle = patrol(InterpolationMode::Wrapping, 1_000);
    assert_eq!(bundle.step(500), Vec2::new(-15_000, 1_001_000));
    assert_eq!(bundle.step(500), Vec2::new(-335_000, 995_000));
    assert_eq!(bundle.interpolator.mode, InterpolationMode::Wrapping);
    assert_eq!(bundle.step(750), Vec2::new(145_000, 1_004_000));
    assert_eq!(bundle.step(750), Vec2::new(-15_000, 1_001_000));
}

#[test]
fn interpolator_of_zero_duration_stays_at_the_far_end() {
    let mut wrapping = patrol(InterpolationMode::Wrapping, 0);
    assert_eq!(wrapping.step(16_000_000), wrapping.line.1);
    assert_eq!(wrapping.step(16_000_000), wrapping.line.1);
    let mut turning = patrol(InterpolationMode::BackAndForth(Direction::Forward), 0);
    assert_eq!(turning.step(16_000_000), turning.line.0);
    assert_eq!(turning.step(16_000_000), turning.line.1);
}

#[test]
fn interpolator_parameter_counts_down_while_running_backward() {
    let mut interpolator = Interpolator {
        timer: CycleTimer::new(1_000),
        mode: InterpolationMode::BackAndForth(Direction::Backward),
    };
    interpolator.step(250);
    assert_eq!(interpolator.parameter(), (750, 1_000));
    interpolator.mode = InterpolationMode::BackAndForth(Direction::Forward);
    assert_eq!(interpolator.parameter(), (250, 1_000));
    interpolator.mode = InterpolationMode::Wrapping;
    assert_eq!(interpolator.parameter(), (250, 1_000));
}
