//! The oscillation controller: a platform that travels back and forth along
//! one axis, between two bounds at equal distance from where it started.

use vstd::prelude::*;
use crate::geometry::Position;

verus! {

/// The axis along which a moving platform travels.
#[derive(Debug, Clone, Copy, PartialEq, Eq, Structural)]
pub enum MovementAxis {
    X,
    Y,
}

/// A platform that moves back and forth along a single axis.
///
/// The platform's position is not part of this value: it belongs to whoever
/// places the platform on screen, and is handed to [`MovingPlatform::step`]
/// at every simulation step.
#[derive(Debug, Clone, Copy, PartialEq, Eq, Structural)]
pub struct MovingPlatform {
    /// The coordinate, on the axis of travel, at which the platform started.
    pub start_position: i64,
    /// The largest distance from `start_position` that the platform is meant
    /// to reach, in either direction.
    pub range: u32,
    /// The distance covered per unit of time.
    pub speed: u32,
    /// The sign of travel: `1` towards larger coordinates, `-1` towards
    /// smaller ones.
    pub direction: i8,
    /// The axis of travel.
    pub axis: MovementAxis,
}

impl MovingPlatform {
    /// The direction is a sign.
    pub open spec fn well_formed(self) -> bool {
        self.direction == 1 || self.direction == -1
    }

    /// The smallest coordinate that the platform is meant to reach.
    pub open spec fn spec_min_bound(self) -> int {
        self.start_position - self.range
    }

    /// The largest coordinate that the platform is meant to reach.
    pub open spec fn spec_max_bound(self) -> int {
        self.start_position + self.range
    }

    /// The direction in which the platform leaves `position`: backwards from
    /// the upper bound and beyond, forwards from the lower bound and beyond,
    /// and as it was going anywhere in between. The upper bound is looked at
    /// first, which matters only where the two bounds coincide.
    pub open spec fn spec_heading(self, position: int) -> int {
        if position >= self.spec_max_bound() {
            -1
        } else if position <= self.spec_min_bound() {
            1
        } else {
            self.direction as int
        }
    }

    /// The distance that the platform covers in `dt` units of time.
    pub open spec fn travel(self, dt: int) -> int {
        self.speed * dt
    }

    /// The signed distance by which a step of `dt` units of time moves a
    /// platform that stands at `position`.
    pub open spec fn spec_displacement(self, position: int, dt: int) -> int {
        self.spec_heading(position) * self.travel(dt)
    }

    /// Where a platform that stands at `position` is after a step of `dt`
    /// units of time.
    pub open spec fn position_after(self, position: int, dt: int) -> int {
        position + self.spec_displacement(position, dt)
    }

    /// The platform after a step taken at `position`: only its direction can
    /// have changed.
    pub open spec fn stepped(self, position: int) -> MovingPlatform {
        MovingPlatform { direction: self.spec_heading(position) as i8, ..self }
    }

    /// Whether the position after a step can be held in an `i64`.
    pub open spec fn can_step(self, position: int, dt: int) -> bool {
        i64::MIN <= self.position_after(position, dt) <= i64::MAX
    }

    /// The distance covered is never negative, and the displacement is that
    /// distance with the sign of the heading.
    pub proof fn lemma_displacement_follows_heading(self, position: int, dt: int)
        requires
            0 <= dt,
        ensures
            0 <= self.travel(dt),
            self.speed > 0 && dt > 0 ==> 0 < self.travel(dt),
            self.spec_heading(position) == 1 ==> self.spec_displacement(position, dt)
                == self.travel(dt),
            self.spec_heading(position) == -1 ==> self.spec_displacement(position, dt)
                == -self.travel(dt),
            self.well_formed() ==> self.spec_heading(position) == 1 || self.spec_heading(position)
                == -1,
            -128 * self.travel(dt) <= self.spec_displacement(position, dt) <= 128 * self.travel(
                dt,
            ),
    {
        let heading = self.spec_heading(position);
        let travel = self.travel(dt);
        assert(0 <= self.speed * dt) by (nonlinear_arith)
            requires
                0 <= self.speed,
                0 <= dt,
        ;
        assert(self.speed > 0 && dt > 0 ==> 0 < self.speed * dt) by (nonlinear_arith);
        assert(-128 * travel <= heading * travel <= 128 * travel) by (nonlinear_arith)
            requires
                -128 <= heading <= 127,
                0 <= travel,
        ;
        assert(heading == 1 ==> heading * travel == travel) by (nonlinear_arith);
        assert(heading == -1 ==> heading * travel == -travel) by (nonlinear_arith);
    }

    /// A platform at rest at `start_position`, about to travel towards larger
    /// coordinates.
    pub fn new(start_position: i64, range: u32, speed: u32, axis: MovementAxis) -> (platform: Self)
        ensures
            platform == (MovingPlatform { start_position, range, speed, direction: 1, axis }),
            platform.well_formed(),
    {
        MovingPlatform { start_position, range, speed, direction: 1, axis }
    }

    /// The smallest coordinate that the platform is meant to reach.
    pub fn min_bound(&self) -> (bound: i128)
        ensures
            bound == self.spec_min_bound(),
    {
        self.start_position as i128 - self.range as i128
    }

    /// The largest coordinate that the platform is meant to reach.
    pub fn max_bound(&self) -> (bound: i128)
        ensures
            bound == self.spec_max_bound(),
    {
        self.start_position as i128 + self.range as i128
    }

    /// The direction in which the platform leaves `position`.
    pub fn heading(&self, position: i64) -> (heading: i8)
        ensures
            heading == self.spec_heading(position as int),
            self.well_formed() ==> heading == 1 || heading == -1,
    {
        let at: i128 = position as i128;
        if at >= self.max_bound() {
            -1
        } else if at <= self.min_bound() {
            1
        } else {
            self.direction
        }
    }

    /// The signed distance by which a step of `dt` units of time moves a
    /// platform that stands at `position`.
    pub fn displacement(&self, position: i64, dt: u32) -> (movement: i128)
        ensures
            movement == self.spec_displacement(position as int, dt as int),
    {
        let heading: i128 = self.heading(position) as i128;
        let speed: i128 = self.speed as i128;
        let elapsed: i128 = dt as i128;
        assert(0 <= speed * elapsed <= 0xffff_ffff * 0xffff_ffff) by (nonlinear_arith)
            requires
                0 <= speed <= 0xffff_ffff,
                0 <= elapsed <= 0xffff_ffff,
        ;
        let travel: i128 = speed * elapsed;
        assert(-128 * 0x1_0000_0000_0000_0000 <= heading * travel <= 128
            * 0x1_0000_0000_0000_0000) by (nonlinear_arith)
            requires
                -128 <= heading <= 127,
                0 <= travel <= 0x1_0000_0000_0000_0000,
        ;
        heading * travel
    }

    /// One simulation step of `dt` units of time for a platform that stands at
    /// `position`: the direction is set by the bounds, then the position
    /// moves by direction times speed times `dt`. The position is not pulled
    /// back to a bound that it has passed.
    ///
    /// Reversal is exact: a platform at or beyond its upper bound goes
    /// backwards in this very step, and one at or beyond its lower bound goes
    /// forwards, unless it is also at the upper bound, which can only be where
    /// the range is zero.
    pub fn step(&mut self, position: &mut i64, dt: u32)
        requires
            old(self).can_step(*old(position) as int, dt as int),
        ensures
            *final(self) == old(self).stepped(*old(position) as int),
            *final(position) == old(self).position_after(*old(position) as int, dt as int),
            *old(position) >= old(self).spec_max_bound() ==> final(self).direction == -1
                && *final(position) == *old(position) - old(self).travel(dt as int),
            *old(position) <= old(self).spec_min_bound() && *old(position) < old(
                self,
            ).spec_max_bound() ==> final(self).direction == 1 && *final(position) == *old(position)
                + old(self).travel(dt as int),
            *old(position) >= old(self).spec_max_bound() && old(self).speed > 0 && dt > 0
                ==> *final(position) < *old(position),
            *old(position) <= old(self).spec_min_bound() && *old(position) < old(
                self,
            ).spec_max_bound() && old(self).speed > 0 && dt > 0 ==> *final(position) > *old(
                position,
            ),
            old(self).well_formed() ==> final(self).well_formed(),
    {
        let movement: i128 = self.displacement(*position, dt);
        proof {
            self.lemma_displacement_follows_heading(*position as int, dt as int);
        }
        let next: i128 = *position as i128 + movement;
        self.direction = self.heading(*position);
        *position = next as i64;
    }

    /// Takes the step if the position that it leads to can be held in an
    /// `i64`, and says whether it did. Otherwise nothing changes.
    pub fn try_step(&mut self, position: &mut i64, dt: u32) -> (moved: bool)
        ensures
            moved == old(self).can_step(*old(position) as int, dt as int),
            moved ==> *final(self) == old(self).stepped(*old(position) as int),
            moved ==> *final(position) == old(self).position_after(
                *old(position) as int,
                dt as int,
            ),
            !moved ==> *final(self) == *old(self) && *final(position) == *old(position),
    {
        let movement: i128 = self.displacement(*position, dt);
        proof {
            self.lemma_displacement_follows_heading(*position as int, dt as int);
            assert(self.speed * dt <= 0xffff_ffff * 0xffff_ffff) by (nonlinear_arith)
                requires
                    0 <= self.speed <= 0xffff_ffff,
                    0 <= dt <= 0xffff_ffff,
            ;
        }
        let next: i128 = *position as i128 + movement;
        if next < i64::MIN as i128 || next > i64::MAX as i128 {
            return false;
        }
        self.step(position, dt);
        true
    }
}

/// A moving platform together with the place where it stands.
#[derive(Debug, Clone, Copy, PartialEq, Eq, Structural)]
pub struct PlatformBody {
    pub translation: Position,
    pub platform: MovingPlatform,
}

impl PlatformBody {
    /// The coordinate that the platform's motion changes.
    pub open spec fn coordinate(self) -> int {
        self.translation.spec_along(self.platform.axis) as int
    }

    /// Whether the coordinate after a tick can be held in an `i64`.
    pub open spec fn can_tick(self, dt: int) -> bool {
        self.platform.can_step(self.coordinate(), dt)
    }

    /// The body after a tick of `dt` units of time: the platform has taken a
    /// step on its own axis and the other coordinates are as they were. A
    /// body that cannot tick stays as it is.
    pub open spec fn ticked(self, dt: int) -> PlatformBody {
        if self.can_tick(dt) {
            PlatformBody {
                translation: self.translation.spec_moved_to(
                    self.platform.axis,
                    self.platform.position_after(self.coordinate(), dt) as i64,
                ),
                platform: self.platform.stepped(self.coordinate()),
            }
        } else {
            self
        }
    }

    /// Moves the body by one tick of `dt` units of time, and says whether it
    /// could.
    pub fn tick(&mut self, dt: u32) -> (moved: bool)
        ensures
            moved == old(self).can_tick(dt as int),
            *final(self) == old(self).ticked(dt as int),
    {
        let axis = self.platform.axis;
        let mut coordinate: i64 = self.translation.along(axis);
        let mut platform = self.platform;
        let moved = platform.try_step(&mut coordinate, dt);
        if moved {
            self.translation = self.translation.moved_to(axis, coordinate);
            self.platform = platform;
        }
        moved
    }
}

/// One tick of `dt` units of time for every platform of a level, each on its
/// own axis and independently of the others.
pub fn moving_platform_system(bodies: &mut Vec<PlatformBody>, dt: u32)
    ensures
        final(bodies)@.len() == old(bodies)@.len(),
        forall|i: int|
            0 <= i < old(bodies)@.len() ==> #[trigger] final(bodies)@[i] == old(bodies)@[i].ticked(
                dt as int,
            ),
{
    let count: usize = bodies.len();
    let mut index: usize = 0;
    while index < count
        invariant
            index <= count,
            bodies@.len() == count,
            old(bodies)@.len() == count,
            forall|i: int| 0 <= i < index ==> #[trigger] bodies@[i] == old(bodies)@[i].ticked(dt as int),
            forall|i: int| index <= i < count ==> #[trigger] bodies@[i] == old(bodies)@[i],
        decreases count - index,
    {
        let mut body: PlatformBody = bodies[index];
        body.tick(dt);
        bodies.set(index, body);
        index += 1;
    }
}

} // verus!
