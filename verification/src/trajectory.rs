//! What holds of a platform over many steps.

use vstd::prelude::*;
use crate::platform::MovingPlatform;

verus! {

/// A platform together with its position on its own axis.
pub struct Motion {
    pub platform: MovingPlatform,
    pub position: int,
}

impl Motion {
    /// The motion one step of `dt` units of time later.
    pub open spec fn step(self, dt: int) -> Motion {
        Motion {
            platform: self.platform.stepped(self.position),
            position: self.platform.position_after(self.position, dt),
        }
    }

    /// Whether the position lies between the bounds, or beyond one of them by
    /// no more than the platform covers in `dt` units of time.
    pub open spec fn within_tolerance(self, dt: int) -> bool {
        self.platform.spec_min_bound() - self.platform.travel(dt) <= self.position
            <= self.platform.spec_max_bound() + self.platform.travel(dt)
    }
}

/// The motion after one step for each entry of `dts`, in order.
pub open spec fn run(start: Motion, dts: Seq<int>) -> Motion
    decreases dts.len(),
{
    if dts.len() == 0 {
        start
    } else {
        run(start, dts.drop_last()).step(dts.last())
    }
}

/// `steps` steps of `dt` units of time each.
pub open spec fn steady(dt: int, steps: nat) -> Seq<int> {
    Seq::new(steps, |i: int| dt)
}

/// A step changes nothing of a platform but its direction, and leaves the
/// direction a sign if it was one.
pub proof fn lemma_step_keeps_bounds(start: Motion, dt: int)
    ensures
        start.step(dt).platform.start_position == start.platform.start_position,
        start.step(dt).platform.range == start.platform.range,
        start.step(dt).platform.speed == start.platform.speed,
        start.step(dt).platform.axis == start.platform.axis,
        start.platform.well_formed() ==> start.step(dt).platform.well_formed(),
{
}

/// No number of steps changes anything of a platform but its direction.
pub proof fn lemma_run_keeps_bounds(start: Motion, dts: Seq<int>)
    ensures
        run(start, dts).platform.start_position == start.platform.start_position,
        run(start, dts).platform.range == start.platform.range,
        run(start, dts).platform.speed == start.platform.speed,
        run(start, dts).platform.axis == start.platform.axis,
        start.platform.well_formed() ==> run(start, dts).platform.well_formed(),
    decreases dts.len(),
{
    if dts.len() > 0 {
        lemma_run_keeps_bounds(start, dts.drop_last());
        lemma_step_keeps_bounds(run(start, dts.drop_last()), dts.last());
    }
}

/// A platform that is within the tolerance of its longest step stays within
/// it: after a step of at most `longest` units of time, the position is
/// beyond neither bound by more than the platform covers in `longest`.
pub proof fn lemma_step_stays_within_tolerance(start: Motion, dt: int, longest: int)
    requires
        start.platform.well_formed(),
        0 <= dt <= longest,
        start.within_tolerance(longest),
    ensures
        start.step(dt).within_tolerance(longest),
{
    let platform = start.platform;
    platform.lemma_displacement_follows_heading(start.position, dt);
    assert(platform.speed * dt <= platform.speed * longest) by (nonlinear_arith)
        requires
            0 <= platform.speed,
            dt <= longest,
    ;
}

/// A platform that is within the tolerance of its longest step can take any
/// step up to that length, provided that the tolerated positions themselves
/// can be held in an `i64`.
pub proof fn lemma_step_within_tolerance_fits(start: Motion, dt: int, longest: int)
    requires
        start.platform.well_formed(),
        0 <= dt <= longest,
        start.within_tolerance(longest),
        i64::MIN <= start.platform.spec_min_bound() - start.platform.travel(longest),
        start.platform.spec_max_bound() + start.platform.travel(longest) <= i64::MAX,
    ensures
        start.platform.can_step(start.position, dt),
{
    lemma_step_stays_within_tolerance(start, dt, longest);
}

/// Over steps of at most `longest` units of time each, a platform that
/// starts within the tolerance of `longest` ends within it.
pub proof fn lemma_run_ends_within_tolerance(start: Motion, dts: Seq<int>, longest: int)
    requires
        start.platform.well_formed(),
        forall|i: int| 0 <= i < dts.len() ==> 0 <= #[trigger] dts[i] <= longest,
        start.within_tolerance(longest),
    ensures
        run(start, dts).within_tolerance(longest),
    decreases dts.len(),
{
    if dts.len() > 0 {
        lemma_run_ends_within_tolerance(start, dts.drop_last(), longest);
        lemma_run_keeps_bounds(start, dts.drop_last());
        lemma_step_stays_within_tolerance(run(start, dts.drop_last()), dts.last(), longest);
    }
}

/// Overshoot is bounded by one step. Over any number of steps of at most
/// `longest` units of time each, a platform that starts between its bounds,
/// or beyond one by no more than it covers in `longest`, is at no moment
/// above its upper bound or below its lower bound by more than it covers in
/// `longest`.
pub proof fn lemma_run_stays_within_tolerance(start: Motion, dts: Seq<int>, longest: int)
    requires
        start.platform.well_formed(),
        forall|i: int| 0 <= i < dts.len() ==> 0 <= #[trigger] dts[i] <= longest,
        start.within_tolerance(longest),
    ensures
        forall|k: int|
            0 <= k <= dts.len() ==> {
                let motion = #[trigger] run(start, dts.take(k));
                &&& motion.position <= start.platform.spec_max_bound() + start.platform.travel(
                    longest,
                )
                &&& motion.position >= start.platform.spec_min_bound() - start.platform.travel(
                    longest,
                )
            },
{
    assert forall|k: int| 0 <= k <= dts.len() implies {
        let motion = #[trigger] run(start, dts.take(k));
        &&& motion.position <= start.platform.spec_max_bound() + start.platform.travel(longest)
        &&& motion.position >= start.platform.spec_min_bound() - start.platform.travel(longest)
    } by {
        lemma_run_ends_within_tolerance(start, dts.take(k), longest);
        lemma_run_keeps_bounds(start, dts.take(k));
    }
}

/// The same for steps of one length: stepping with a constant `dt`, for as
/// long as one likes, never takes the position above the upper bound or below
/// the lower bound by more than `speed * dt`.
pub proof fn lemma_steady_run_stays_within_tolerance(start: Motion, dt: int, steps: nat)
    requires
        start.platform.well_formed(),
        0 <= dt,
        start.within_tolerance(dt),
    ensures
        forall|k: nat|
            k <= steps ==> {
                let motion = #[trigger] run(start, steady(dt, k));
                &&& motion.position <= start.platform.start_position + start.platform.range
                    + start.platform.speed * dt
                &&& motion.position >= start.platform.start_position - start.platform.range
                    - start.platform.speed * dt
            },
{
    assert forall|k: nat| k <= steps implies {
        let motion = #[trigger] run(start, steady(dt, k));
        &&& motion.position <= start.platform.start_position + start.platform.range
            + start.platform.speed * dt
        &&& motion.position >= start.platform.start_position - start.platform.range
            - start.platform.speed * dt
    } by {
        lemma_run_ends_within_tolerance(start, steady(dt, k), dt);
        lemma_run_keeps_bounds(start, steady(dt, k));
    }
}

/// A run is a function of where it starts and of the lengths of its steps:
/// two runs that agree on these agree at every moment.
pub proof fn lemma_run_is_deterministic(
    first: Motion,
    first_dts: Seq<int>,
    second: Motion,
    second_dts: Seq<int>,
)
    requires
        first == second,
        first_dts.len() == second_dts.len(),
        forall|i: int| 0 <= i < first_dts.len() ==> first_dts[i] == second_dts[i],
    ensures
        forall|k: int|
            0 <= k <= first_dts.len() ==> run(first, #[trigger] first_dts.take(k)) == run(
                second,
                second_dts.take(k),
            ),
{
    assert(first_dts =~= second_dts);
}

/// A platform with no range turns at every step that finds it where it
/// started, and moves in place. Its two bounds are the place where it
/// started. A step from there goes backwards by `speed * dt`, the step after
/// it comes back, and so the platform is home again after every second step.
pub proof fn lemma_zero_range_oscillates_in_place(platform: MovingPlatform, dt: int, pairs: nat)
    requires
        platform.range == 0,
        0 <= dt,
    ensures
        platform.spec_min_bound() == platform.start_position,
        platform.spec_max_bound() == platform.start_position,
        ({
            let home = Motion { platform, position: platform.start_position as int };
            &&& home.step(dt).platform.direction == -1
            &&& home.step(dt).position == platform.start_position - platform.speed * dt
            &&& platform.speed * dt > 0 ==> home.step(dt).step(dt).platform.direction == 1
            &&& home.step(dt).step(dt).position == platform.start_position
            &&& run(home, steady(dt, 2 * pairs)).position == platform.start_position
        }),
    decreases pairs,
{
    let home = Motion { platform, position: platform.start_position as int };
    lemma_there_and_back(home, dt);
    if pairs > 0 {
        let steps = (2 * pairs) as nat;
        let earlier = run(home, steady(dt, (steps - 2) as nat));
        lemma_zero_range_oscillates_in_place(platform, dt, (pairs - 1) as nat);
        lemma_run_keeps_bounds(home, steady(dt, (steps - 2) as nat));
        lemma_there_and_back(earlier, dt);
        lemma_steady_run_unfolds(home, dt, (steps - 1) as nat);
        lemma_steady_run_unfolds(home, dt, steps);
    }
}

/// A steady run of one step or more is the run of one step fewer, followed by
/// its last step.
pub proof fn lemma_steady_run_unfolds(start: Motion, dt: int, steps: nat)
    requires
        steps > 0,
    ensures
        run(start, steady(dt, steps)) == run(start, steady(dt, (steps - 1) as nat)).step(dt),
{
    assert(steady(dt, steps).drop_last() =~= steady(dt, (steps - 1) as nat));
    assert(steady(dt, steps).last() == dt);
}

/// One step away from home and one step back, for a platform with no range.
proof fn lemma_there_and_back(home: Motion, dt: int)
    requires
        home.platform.range == 0,
        home.position == home.platform.start_position,
        0 <= dt,
    ensures
        home.step(dt).platform.direction == -1,
        home.step(dt).position == home.position - home.platform.speed * dt,
        home.platform.speed * dt > 0 ==> home.step(dt).step(dt).platform.direction == 1,
        home.step(dt).step(dt).position == home.position,
{
    let away = home.step(dt);
    home.platform.lemma_displacement_follows_heading(home.position, dt);
    away.platform.lemma_displacement_follows_heading(away.position, dt);
}

} // verus!
