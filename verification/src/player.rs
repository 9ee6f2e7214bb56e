//! The player: settings, and the mapping from keys to an impulse.

use vstd::prelude::*;

verus! {

/// How strongly the player answers to the keys.
#[derive(Debug, Clone, Copy, PartialEq, Eq, Structural)]
pub struct PlayerSettings {
    /// The sideways impulse per unit of time while a direction key is held.
    pub speed: i32,
    /// The upward impulse of a jump.
    pub jump_impulse: i32,
}

impl Default for PlayerSettings {
    fn default() -> (settings: Self)
        ensures
            settings == (PlayerSettings { speed: 1800, jump_impulse: 800 }),
    {
        PlayerSettings { speed: 1800, jump_impulse: 800 }
    }
}

/// The keys as they are during one step.
#[derive(Debug, Clone, Copy, PartialEq, Eq, Structural)]
pub struct PlayerInput {
    /// The key for moving left is held.
    pub left: bool,
    /// The key for moving right is held.
    pub right: bool,
    /// The key for jumping went down during this step.
    pub jump: bool,
}

/// An impulse on a body.
#[derive(Debug, Clone, Copy, PartialEq, Eq, Structural)]
pub struct Impulse {
    pub x: i64,
    pub y: i64,
}

impl PlayerInput {
    /// The sideways direction that the keys ask for: `1` for right, `-1` for
    /// left, and `0` where neither or both are held.
    pub open spec fn spec_direction(self) -> int {
        (if self.right { 1int } else { 0int }) - (if self.left { 1int } else { 0int })
    }

    /// The sideways direction that the keys ask for.
    pub fn direction(&self) -> (direction: i8)
        ensures
            direction == self.spec_direction(),
            -1 <= direction <= 1,
    {
        let right: i8 = if self.right { 1 } else { 0 };
        let left: i8 = if self.left { 1 } else { 0 };
        right - left
    }
}

impl PlayerSettings {
    /// The impulse that the keys ask for over a step of `dt` units of time.
    pub open spec fn spec_impulse(self, input: PlayerInput, dt: int) -> (int, int) {
        (
            input.spec_direction() * (self.speed * dt),
            if input.jump { self.jump_impulse as int } else { 0 },
        )
    }
}

/// The impulse on the player for one step of `dt` units of time. Sideways it
/// is the direction of the keys times the speed times `dt`; upwards it is the
/// jump impulse in a step in which the jump key went down, and nothing
/// otherwise. Nothing is carried over from one step to the next.
pub fn player_movement(settings: &PlayerSettings, input: PlayerInput, dt: u32) -> (impulse: Impulse)
    ensures
        (impulse.x as int, impulse.y as int) == settings.spec_impulse(input, dt as int),
        input.left == input.right ==> impulse.x == 0,
        input.right && !input.left ==> impulse.x == settings.speed * dt,
        input.left && !input.right ==> impulse.x == -(settings.speed * dt),
        impulse.y == if input.jump { settings.jump_impulse as int } else { 0 },
{
    let speed: i64 = settings.speed as i64;
    let elapsed: i64 = dt as i64;
    assert(-0x8000_0000 * 0xffff_ffff <= speed * elapsed <= 0x8000_0000 * 0xffff_ffff)
        by (nonlinear_arith)
        requires
            -0x8000_0000 <= speed < 0x8000_0000,
            0 <= elapsed <= 0xffff_ffff,
    ;
    let push: i64 = speed * elapsed;
    let direction: i8 = input.direction();
    let x: i64 = if direction > 0 {
        push
    } else if direction < 0 {
        -push
    } else {
        0
    };
    proof {
        let sign = input.spec_direction();
        let reach = settings.speed * dt;
        assert(sign == 1 ==> sign * reach == reach) by (nonlinear_arith);
        assert(sign == -1 ==> sign * reach == -reach) by (nonlinear_arith);
        assert(sign == 0 ==> sign * reach == 0) by (nonlinear_arith);
    }
    let y: i64 = if input.jump {
        settings.jump_impulse as i64
    } else {
        0
    };
    Impulse { x, y }
}

} // verus!
