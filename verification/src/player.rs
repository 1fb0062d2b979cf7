//! The player: steering, integration, the horizontal bounds of the world, and
//! the choice between bouncing off a platform and falling.

use crate::geometry::{CollisionBox, Vec2};
use crate::units::{displacement, displacement_over, representable};
use vstd::prelude::*;

verus! {

/// Speed along both axes, in fixed-point steps per second.
#[derive(Clone, Copy, Debug, PartialEq, Eq, Structural)]
pub struct Velocity(pub Vec2);

impl Velocity {
    /// Upward speed given by a bounce.
    pub const JUMP_VELOCITY: i64 = 575_000;

    /// Downward acceleration, per second.
    pub const GRAVITY: i64 = 225_000;

    /// Largest downward speed.
    pub const MAX_FALL_SPEED: i64 = 700_000;

    /// Sideways acceleration while steering, per second.
    pub const HORIZONTAL_ACCELERATION: i64 = 550_000;

    /// Largest sideways speed that steering can reach.
    pub const MAX_HORIZONTAL_SPEED: i64 = 460_000;

    /// A player rising no faster than this may bounce.
    pub const RISING_THRESHOLD: i64 = 100;
}

/// Half of the screen width: the player's centre stays this close to the
/// middle, less its own half-width.
pub const HALF_SCREEN_WIDTH: i64 = 128_000;

/// What the player asks for in one tick.
#[derive(Clone, Copy, Debug, PartialEq, Eq, Structural)]
pub enum Input {
    Left,
    Right,
    Neutral,
}

impl Input {
    /// The signal for a pair of held keys: opposite keys cancel.
    pub open spec fn of_keys(left: bool, right: bool) -> Input {
        if left && !right {
            Input::Left
        } else if right && !left {
            Input::Right
        } else {
            Input::Neutral
        }
    }

    /// Computes [`Input::of_keys`].
    pub fn from_keys(left: bool, right: bool) -> (input: Input)
        ensures
            input == Input::of_keys(left, right),
    {
        match (left, right) {
            (true, true) | (false, false) => Input::Neutral,
            (true, false) => Input::Left,
            (false, true) => Input::Right,
        }
    }
}

/// Sideways speed after steering for `nanos` nanoseconds.
pub open spec fn steered(speed: int, input: Input, nanos: int) -> int {
    match input {
        Input::Left => {
            let slowed = speed - displacement(Velocity::HORIZONTAL_ACCELERATION as int, nanos);
            if slowed >= -Velocity::MAX_HORIZONTAL_SPEED {
                slowed
            } else {
                -Velocity::MAX_HORIZONTAL_SPEED
            }
        },
        Input::Right => {
            let raised = speed + displacement(Velocity::HORIZONTAL_ACCELERATION as int, nanos);
            if raised <= Velocity::MAX_HORIZONTAL_SPEED {
                raised
            } else {
                Velocity::MAX_HORIZONTAL_SPEED as int
            }
        },
        Input::Neutral => speed,
    }
}

/// Vertical speed after falling for `nanos` nanoseconds.
pub open spec fn fallen(speed: int, nanos: int) -> int {
    let slowed = speed - displacement(Velocity::GRAVITY as int, nanos);
    if slowed >= -Velocity::MAX_FALL_SPEED {
        slowed
    } else {
        -Velocity::MAX_FALL_SPEED
    }
}

/// The player character.
#[derive(Clone, Copy, Debug, PartialEq, Eq, Structural)]
pub struct Player {
    pub position: Vec2,
    pub velocity: Velocity,
    pub collision_box: CollisionBox,
}

impl Player {
    /// The player after steering for `nanos` nanoseconds.
    pub open spec fn after_control(self, input: Input, nanos: u64) -> Player {
        Player {
            velocity: Velocity(
                Vec2 {
                    x: steered(self.velocity.0.x as int, input, nanos as int) as i64,
                    y: self.velocity.0.y,
                },
            ),
            ..self
        }
    }

    /// Computes [`Player::after_control`] in place.
    pub fn control(&mut self, input: Input, delta_nanos: u64)
        ensures
            *final(self) == old(self).after_control(input, delta_nanos),
            final(self).velocity.0.x == steered(
                old(self).velocity.0.x as int,
                input,
                delta_nanos as int,
            ),
            input == Input::Left ==> final(self).velocity.0.x >= -Velocity::MAX_HORIZONTAL_SPEED,
            input == Input::Right ==> final(self).velocity.0.x <= Velocity::MAX_HORIZONTAL_SPEED,
    {
        let gained: i128 = displacement_over(Velocity::HORIZONTAL_ACCELERATION, delta_nanos);
        let speed: i128 = self.velocity.0.x as i128;
        match input {
            Input::Left => {
                let slowed: i128 = speed - gained;
                if slowed >= -(Velocity::MAX_HORIZONTAL_SPEED as i128) {
                    self.velocity.0.x = slowed as i64;
                } else {
                    self.velocity.0.x = -Velocity::MAX_HORIZONTAL_SPEED;
                }
            },
            Input::Right => {
                let raised: i128 = speed + gained;
                if raised <= Velocity::MAX_HORIZONTAL_SPEED as i128 {
                    self.velocity.0.x = raised as i64;
                } else {
                    self.velocity.0.x = Velocity::MAX_HORIZONTAL_SPEED;
                }
            },
            Input::Neutral => {},
        }
    }

    /// Whether the place reached after `nanos` nanoseconds at the present
    /// velocity can be stored.
    pub open spec fn move_fits(self, nanos: u64) -> bool {
        &&& representable(self.position.x + displacement(self.velocity.0.x as int, nanos as int))
        &&& representable(self.position.y + displacement(self.velocity.0.y as int, nanos as int))
    }

    /// The player after moving for `nanos` nanoseconds at the present
    /// velocity.
    pub open spec fn after_physics(self, nanos: u64) -> Player {
        Player {
            position: Vec2 {
                x: (self.position.x + displacement(self.velocity.0.x as int, nanos as int)) as i64,
                y: (self.position.y + displacement(self.velocity.0.y as int, nanos as int)) as i64,
            },
            ..self
        }
    }

    /// Decides [`Player::move_fits`].
    pub fn can_integrate(&self, delta_nanos: u64) -> (fits: bool)
        ensures
            fits == self.move_fits(delta_nanos),
    {
        let x: i128 = self.position.x as i128 + displacement_over(self.velocity.0.x, delta_nanos);
        let y: i128 = self.position.y as i128 + displacement_over(self.velocity.0.y, delta_nanos);
        i64::MIN as i128 <= x && x <= i64::MAX as i128 && i64::MIN as i128 <= y && y
            <= i64::MAX as i128
    }

    /// Computes [`Player::after_physics`] in place.
    pub fn integrate(&mut self, delta_nanos: u64)
        requires
            old(self).move_fits(delta_nanos),
        ensures
            *final(self) == old(self).after_physics(delta_nanos),
    {
        let x: i128 = self.position.x as i128 + displacement_over(self.velocity.0.x, delta_nanos);
        let y: i128 = self.position.y as i128 + displacement_over(self.velocity.0.y, delta_nanos);
        self.position.x = x as i64;
        self.position.y = y as i64;
    }

    /// Whether the player is narrow enough for the screen to hold it.
    pub open spec fn fits_screen(self) -> bool {
        self.collision_box.0.width <= HALF_SCREEN_WIDTH
    }

    /// How far from the middle of the screen the player's centre may be.
    pub open spec fn allowed_width(self) -> int {
        HALF_SCREEN_WIDTH - self.collision_box.0.width
    }

    /// The player after being held inside the screen: a centre beyond the
    /// allowed width is put back on the edge and loses its sideways speed.
    pub open spec fn after_bounds(self) -> Player {
        if self.position.x > self.allowed_width() {
            Player {
                position: Vec2 { x: self.allowed_width() as i64, y: self.position.y },
                velocity: Velocity(Vec2 { x: 0, y: self.velocity.0.y }),
                ..self
            }
        } else if self.position.x < -self.allowed_width() {
            Player {
                position: Vec2 { x: (-self.allowed_width()) as i64, y: self.position.y },
                velocity: Velocity(Vec2 { x: 0, y: self.velocity.0.y }),
                ..self
            }
        } else {
            self
        }
    }

    /// Computes [`Player::after_bounds`] in place.
    pub fn keep_in_bounds(&mut self)
        requires
            old(self).fits_screen(),
        ensures
            *final(self) == old(self).after_bounds(),
            -old(self).allowed_width() <= final(self).position.x <= old(self).allowed_width(),
    {
        let allowed_width: i128 = HALF_SCREEN_WIDTH as i128 - self.collision_box.0.width as i128;
        let x: i128 = self.position.x as i128;
        if x > allowed_width {
            self.position.x = allowed_width as i64;
            self.velocity.0.x = 0;
        } else if x < -allowed_width {
            self.position.x = (-allowed_width) as i64;
            self.velocity.0.x = 0;
        }
    }

    /// Whether the player is in contact with a box centred at `position`.
    pub open spec fn touches(self, collision_box: CollisionBox, position: Vec2) -> bool {
        self.collision_box.0.overlaps(self.position, collision_box.0, position)
    }

    /// Decides [`Player::touches`].
    pub fn test_contact(&self, collision_box: &CollisionBox, position: Vec2) -> (hit: bool)
        ensures
            hit == self.touches(*collision_box, position),
    {
        self.collision_box.0.test_overlap(self.position, &collision_box.0, position)
    }

    /// Whether the player is slow enough on the way up to bounce.
    pub open spec fn may_bounce(self) -> bool {
        self.velocity.0.y <= Velocity::RISING_THRESHOLD
    }

    /// The player after the choice between bouncing and falling: a player
    /// that may bounce and is on a platform leaves it at the jump velocity,
    /// any other player is pulled down by gravity for `nanos` nanoseconds.
    pub open spec fn after_falling_jumping(self, on_platform: bool, nanos: u64) -> Player {
        Player {
            velocity: Velocity(
                Vec2 {
                    x: self.velocity.0.x,
                    y: if self.may_bounce() && on_platform {
                        Velocity::JUMP_VELOCITY
                    } else {
                        fallen(self.velocity.0.y as int, nanos as int) as i64
                    },
                },
            ),
            ..self
        }
    }

    /// Computes [`Player::after_falling_jumping`] in place.
    pub fn fall_or_jump(&mut self, on_platform: bool, delta_nanos: u64)
        ensures
            *final(self) == old(self).after_falling_jumping(on_platform, delta_nanos),
            !(old(self).may_bounce() && on_platform) ==> final(self).velocity.0.y == fallen(
                old(self).velocity.0.y as int,
                delta_nanos as int,
            ),
            final(self).velocity.0.y >= -Velocity::MAX_FALL_SPEED,
    {
        if self.velocity.0.y <= Velocity::RISING_THRESHOLD && on_platform {
            self.velocity.0.y = Velocity::JUMP_VELOCITY;
        } else {
            let lost: i128 = displacement_over(Velocity::GRAVITY, delta_nanos);
            let slowed: i128 = self.velocity.0.y as i128 - lost;
            if slowed >= -(Velocity::MAX_FALL_SPEED as i128) {
                self.velocity.0.y = slowed as i64;
            } else {
                self.velocity.0.y = -Velocity::MAX_FALL_SPEED;
            }
        }
    }
}

/// Whether a sideways speed is within the limit that steering keeps.
pub open spec fn within_speed_limit(speed: int) -> bool {
    -Velocity::MAX_HORIZONTAL_SPEED <= speed <= Velocity::MAX_HORIZONTAL_SPEED
}

/// Displacements have the sign of the rate that causes them.
pub proof fn lemma_displacement_sign(rate: int, nanos: int)
    requires
        0 <= nanos,
    ensures
        rate >= 0 ==> displacement(rate, nanos) >= 0,
        rate <= 0 ==> displacement(rate, nanos) <= 0,
        nanos == 0 ==> displacement(rate, nanos) == 0,
{
    if rate >= 0 {
        assert(rate * nanos >= 0) by (nonlinear_arith)
            requires
                rate >= 0,
                nanos >= 0,
        ;
    } else {
        assert((-rate) * nanos >= 0) by (nonlinear_arith)
            requires
                rate < 0,
                nanos >= 0,
        ;
    }
    if nanos == 0 {
        assert(rate * nanos == 0 && (-rate) * nanos == 0) by (nonlinear_arith)
            requires
                nanos == 0,
        ;
    }
}

/// Steering never takes a sideways speed out of the speed limit.
pub proof fn lemma_steering_keeps_speed_limit(speed: int, input: Input, nanos: int)
    requires
        within_speed_limit(speed),
        0 <= nanos,
    ensures
        within_speed_limit(steered(speed, input, nanos)),
{
    lemma_displacement_sign(Velocity::HORIZONTAL_ACCELERATION as int, nanos);
}

/// Sideways speed after a sequence of steering ticks, each an input held for
/// a number of nanoseconds.
pub open spec fn steered_through(speed: int, ticks: Seq<(Input, u64)>) -> int
    decreases ticks.len(),
{
    if ticks.len() == 0 {
        speed
    } else {
        steered(steered_through(speed, ticks.drop_last()), ticks.last().0, ticks.last().1 as int)
    }
}

/// However many steering ticks follow one another, the sideways speed stays
/// within the speed limit.
pub proof fn lemma_steering_through_keeps_speed_limit(speed: int, ticks: Seq<(Input, u64)>)
    requires
        within_speed_limit(speed),
    ensures
        within_speed_limit(steered_through(speed, ticks)),
    decreases ticks.len(),
{
    if ticks.len() > 0 {
        lemma_steering_through_keeps_speed_limit(speed, ticks.drop_last());
        lemma_steering_keeps_speed_limit(
            steered_through(speed, ticks.drop_last()),
            ticks.last().0,
            ticks.last().1 as int,
        );
    }
}

} // verus!
