//! The steps of one tick, in the order in which a tick runs them, and the
//! tick itself.

use crate::interpolation::Line;
use crate::player::{within_speed_limit, Input, Player, Velocity, HALF_SCREEN_WIDTH};
use crate::spawner::{can_populate, platform_spawner, SpawnRolls};
use crate::world::{DamageSource, ScreenHeight, World, WorldView};
use vstd::prelude::*;

verus! {

/// How far above the highest point reached the camera is placed.
pub const CAMERA_OFFSET: i64 = 250_000;

impl DamageSource {
    /// The hazard after `nanos` nanoseconds: an enemy has moved along its
    /// patrol line, spikes stay as they are.
    pub open spec fn after_interpolation(self, nanos: u64) -> DamageSource {
        match self.patrol {
            Some(bundle) => DamageSource {
                position: bundle.after_step(nanos).position(),
                patrol: Some(bundle.after_step(nanos)),
                ..self
            },
            None => self,
        }
    }

    /// Computes [`DamageSource::after_interpolation`] in place.
    pub fn interpolate(&mut self, delta_nanos: u64)
        ensures
            *final(self) == old(self).after_interpolation(delta_nanos),
    {
        match self.patrol {
            Some(mut bundle) => {
                self.position = bundle.step(delta_nanos);
                self.patrol = Some(bundle);
            },
            None => {},
        }
    }
}

impl WorldView {
    /// The world after the player has steered for `nanos` nanoseconds.
    pub open spec fn after_control(self, input: Input, nanos: u64) -> WorldView {
        WorldView {
            player: match self.player {
                Some(player) => Some(player.after_control(input, nanos)),
                None => None,
            },
            ..self
        }
    }

    /// Whether the place that the player reaches in `nanos` nanoseconds can
    /// be stored.
    pub open spec fn physics_fits(self, nanos: u64) -> bool {
        match self.player {
            Some(player) => player.move_fits(nanos),
            None => true,
        }
    }

    /// The world after every body has moved for `nanos` nanoseconds at its
    /// velocity. The player is the only body with a velocity.
    pub open spec fn after_physics(self, nanos: u64) -> WorldView {
        WorldView {
            player: match self.player {
                Some(player) => Some(player.after_physics(nanos)),
                None => None,
            },
            ..self
        }
    }

    /// The world after every patrolling hazard has moved for `nanos`
    /// nanoseconds.
    pub open spec fn after_interpolation(self, nanos: u64) -> WorldView {
        WorldView {
            hazards: self.hazards.map_values(
                |hazard: DamageSource| hazard.after_interpolation(nanos),
            ),
            ..self
        }
    }

    /// Whether the player, if there is one, is narrow enough for the screen.
    pub open spec fn bounds_fit(self) -> bool {
        match self.player {
            Some(player) => player.fits_screen(),
            None => true,
        }
    }

    /// The world after the player has been held inside the screen.
    pub open spec fn after_bounds(self) -> WorldView {
        WorldView {
            player: match self.player {
                Some(player) => Some(player.after_bounds()),
                None => None,
            },
            ..self
        }
    }

    /// Whether the player stands at or above the highest point reached so
    /// far.
    pub open spec fn raises_height(self) -> bool {
        match self.player {
            Some(player) => player.position.y >= self.screen_height.0,
            None => false,
        }
    }

    /// Whether the camera height that goes with the player's height can be
    /// stored.
    pub open spec fn tracking_fits(self) -> bool {
        self.raises_height() ==> self.player.unwrap().position.y + CAMERA_OFFSET <= i64::MAX
    }

    /// The world after the highest point reached has followed the player: a
    /// player at or above it raises it, and the camera with it.
    pub open spec fn after_tracking(self) -> WorldView {
        if self.raises_height() {
            WorldView {
                screen_height: ScreenHeight(self.player.unwrap().position.y),
                camera_height: (self.player.unwrap().position.y + CAMERA_OFFSET) as i64,
                ..self
            }
        } else {
            self
        }
    }

    /// Whether `player` is in contact with a platform.
    pub open spec fn on_platform(self, player: Player) -> bool {
        exists|i: int|
            0 <= i < self.platforms.len() && player.touches(
                (#[trigger] self.platforms[i]).collision_box,
                self.platforms[i].position,
            )
    }

    /// The world after the player has bounced off a platform or fallen for
    /// `nanos` nanoseconds.
    pub open spec fn after_falling_jumping(self, nanos: u64) -> WorldView {
        WorldView {
            player: match self.player {
                Some(player) => Some(
                    player.after_falling_jumping(self.on_platform(player), nanos),
                ),
                None => None,
            },
            ..self
        }
    }

    /// Whether `player` is in contact with a hazard.
    pub open spec fn in_danger(self, player: Player) -> bool {
        exists|i: int|
            0 <= i < self.hazards.len() && player.touches(
                (#[trigger] self.hazards[i]).collision_box,
                self.hazards[i].position,
            )
    }

    /// The world after hazards have taken their toll: a player in contact
    /// with a hazard is gone.
    pub open spec fn after_damage(self) -> WorldView {
        WorldView {
            player: match self.player {
                Some(player) if self.in_danger(player) => None,
                _ => self.player,
            },
            ..self
        }
    }

    /// The world as the generator finds it during a tick: the player has
    /// steered and moved, the hazards have moved, the player has been held
    /// inside the screen and the highest point reached has followed it.
    pub open spec fn before_spawner(self, input: Input, nanos: u64) -> WorldView {
        self.after_control(input, nanos).after_physics(nanos).after_interpolation(
            nanos,
        ).after_bounds().after_tracking()
    }

    /// The world after one tick of `nanos` nanoseconds in which the generator
    /// makes the choices `rolls`.
    pub open spec fn after_tick(
        self,
        input: Input,
        nanos: u64,
        rolls: SpawnRolls,
        jitter: Line,
    ) -> WorldView {
        self.before_spawner(input, nanos).after_spawner(rolls, jitter).after_falling_jumping(
            nanos,
        ).after_damage()
    }

    /// Whether every value that a tick computes can be stored, whatever the
    /// generator chooses.
    pub open spec fn tick_fits(self, input: Input, nanos: u64, jitter: Line) -> bool {
        &&& self.after_control(input, nanos).physics_fits(nanos)
        &&& self.bounds_fit()
        &&& self.after_control(input, nanos).after_physics(nanos).after_interpolation(
            nanos,
        ).after_bounds().tracking_fits()
        &&& self.before_spawner(input, nanos).spawn_fits(jitter)
    }
}

/// Applies the steering input to the player's velocity. Without a player
/// nothing happens.
pub fn player_horizontal_control(world: &mut World, input: Input, delta_nanos: u64)
    ensures
        final(world)@ == old(world)@.after_control(input, delta_nanos),
{
    match world.player {
        Some(mut player) => {
            player.control(input, delta_nanos);
            world.player = Some(player);
        },
        None => {},
    }
}

/// Moves every body with a velocity by what it covers in `delta_nanos`
/// nanoseconds.
pub fn step_physics(world: &mut World, delta_nanos: u64)
    requires
        old(world)@.physics_fits(delta_nanos),
    ensures
        final(world)@ == old(world)@.after_physics(delta_nanos),
{
    match world.player {
        Some(mut player) => {
            player.integrate(delta_nanos);
            world.player = Some(player);
        },
        None => {},
    }
}

/// Moves every patrolling hazard along its line by `delta_nanos`
/// nanoseconds.
pub fn step_interpolation(world: &mut World, delta_nanos: u64)
    ensures
        final(world)@ == old(world)@.after_interpolation(delta_nanos),
{
    let ghost before = world@;
    let mut i: usize = 0;
    while i < world.hazards.len()
        invariant
            i <= world.hazards.len(),
            world@ == (WorldView { hazards: world.hazards@, ..before }),
            world.hazards@.len() == before.hazards.len(),
            forall|j: int|
                #![trigger before.hazards[j]]
                0 <= j < i ==> world.hazards@[j] == before.hazards[j].after_interpolation(
                    delta_nanos,
                ),
            forall|j: int|
                #![trigger before.hazards[j]]
                i <= j < before.hazards.len() ==> world.hazards@[j] == before.hazards[j],
        decreases world.hazards.len() - i,
    {
        let mut hazard = world.hazards[i];
        hazard.interpolate(delta_nanos);
        world.hazards[i] = hazard;
        i += 1;
    }
    assert(world.hazards@ =~= before.hazards.map_values(
        |hazard: DamageSource| hazard.after_interpolation(delta_nanos),
    ));
}

/// Holds the player inside the screen: a player beyond the edge is put back
/// on it and loses its sideways speed.
pub fn keep_player_in_bounds(world: &mut World)
    requires
        old(world)@.bounds_fit(),
    ensures
        final(world)@ == old(world)@.after_bounds(),
{
    match world.player {
        Some(mut player) => {
            player.keep_in_bounds();
            world.player = Some(player);
        },
        None => {},
    }
}

/// Raises the highest point reached, and with it the camera, to the player's
/// height if the player stands at or above it. The highest point reached
/// never goes down.
pub fn screen_tracking(world: &mut World)
    requires
        old(world)@.tracking_fits(),
    ensures
        final(world)@ == old(world)@.after_tracking(),
        final(world).screen_height.0 >= old(world).screen_height.0,
{
    match world.player {
        Some(player) => {
            if player.position.y >= world.screen_height.0 {
                world.screen_height = ScreenHeight(player.position.y);
                world.camera_height = player.position.y + CAMERA_OFFSET;
            }
        },
        None => {},
    }
}

impl World {
    /// Decides [`WorldView::on_platform`].
    pub fn touches_platform(&self, player: &Player) -> (hit: bool)
        ensures
            hit == self@.on_platform(*player),
    {
        let mut i: usize = 0;
        while i < self.platforms.len()
            invariant
                i <= self.platforms.len(),
                forall|j: int|
                    0 <= j < i ==> !player.touches(
                        (#[trigger] self.platforms@[j]).collision_box,
                        self.platforms@[j].position,
                    ),
            decreases self.platforms.len() - i,
        {
            let platform = &self.platforms[i];
            if player.test_contact(&platform.collision_box, platform.position) {
                assert(self@.platforms[i as int] == *platform);
                return true;
            }
            i += 1;
        }
        false
    }

    /// Decides [`WorldView::in_danger`].
    pub fn touches_hazard(&self, player: &Player) -> (hit: bool)
        ensures
            hit == self@.in_danger(*player),
    {
        let mut i: usize = 0;
        while i < self.hazards.len()
            invariant
                i <= self.hazards.len(),
                forall|j: int|
                    0 <= j < i ==> !player.touches(
                        (#[trigger] self.hazards@[j]).collision_box,
                        self.hazards@[j].position,
                    ),
            decreases self.hazards.len() - i,
        {
            let hazard = &self.hazards[i];
            if player.test_contact(&hazard.collision_box, hazard.position) {
                assert(self@.hazards[i as int] == *hazard);
                return true;
            }
            i += 1;
        }
        false
    }
}

/// Lets the player bounce or fall: a player that is not rising and touches
/// a platform leaves it at the jump velocity, any other player is pulled
/// down by gravity. Without a player nothing happens.
pub fn player_falling_jumping(world: &mut World, delta_nanos: u64)
    ensures
        final(world)@ == old(world)@.after_falling_jumping(delta_nanos),
{
    match world.player {
        Some(mut player) => {
            let landing = player.velocity.0.y <= Velocity::RISING_THRESHOLD
                && world.touches_platform(&player);
            player.fall_or_jump(landing, delta_nanos);
            world.player = Some(player);
        },
        None => {},
    }
}

/// Removes a player that touches a hazard. Without a player nothing
/// happens.
pub fn kill_player_on_damage(world: &mut World)
    ensures
        final(world)@ == old(world)@.after_damage(),
{
    match world.player {
        Some(player) => {
            if world.touches_hazard(&player) {
                world.player = None;
            }
        },
        None => {},
    }
}

impl World {
    /// Decides [`WorldView::tick_fits`].
    pub fn can_tick(&self, input: Input, delta_nanos: u64, jitter: &Line) -> (fits: bool)
        ensures
            fits == self@.tick_fits(input, delta_nanos, *jitter),
    {
        match self.player {
            Some(mut player) => {
                player.control(input, delta_nanos);
                if !player.can_integrate(delta_nanos) {
                    return false;
                }
                if player.collision_box.0.width > HALF_SCREEN_WIDTH {
                    return false;
                }
                player.integrate(delta_nanos);
                player.keep_in_bounds();
                if player.position.y >= self.screen_height.0 {
                    if player.position.y > i64::MAX - CAMERA_OFFSET {
                        return false;
                    }
                    can_populate(
                        ScreenHeight(player.position.y),
                        self.last_platform_spawn_height,
                        self.non_initial,
                        jitter,
                    )
                } else {
                    can_populate(
                        self.screen_height,
                        self.last_platform_spawn_height,
                        self.non_initial,
                        jitter,
                    )
                }
            },
            None => can_populate(
                self.screen_height,
                self.last_platform_spawn_height,
                self.non_initial,
                jitter,
            ),
        }
    }
}

/// Runs one tick of `delta_nanos` nanoseconds: steering, movement of the
/// player and of the patrolling hazards, the screen bounds, the highest point
/// reached, the generator, bouncing or falling, and last the hazards' toll.
/// The `jitter` moves the turning points of an enemy that the generator may
/// place.
pub fn tick(world: &mut World, input: Input, delta_nanos: u64, jitter: &Line)
    requires
        old(world)@.tick_fits(input, delta_nanos, *jitter),
    ensures
        exists|rolls: SpawnRolls| #[trigger]
            rolls.in_range() && final(world)@ == old(world)@.after_tick(
                input,
                delta_nanos,
                rolls,
                *jitter,
            ),
        final(world).screen_height.0 >= old(world).screen_height.0,
        final(world)@.quiescent(),
{
    player_horizontal_control(world, input, delta_nanos);
    step_physics(world, delta_nanos);
    step_interpolation(world, delta_nanos);
    keep_player_in_bounds(world);
    screen_tracking(world);
    platform_spawner(world, jitter);
    player_falling_jumping(world, delta_nanos);
    kill_player_on_damage(world);
}

/// What goes into one tick: the input, the length of the tick, the choices
/// of the generator and the jitter of an enemy's turning points.
pub struct TickEvent {
    pub input: Input,
    pub nanos: u64,
    pub rolls: SpawnRolls,
    pub jitter: Line,
}

impl WorldView {
    /// The world after a sequence of ticks, the first of `ticks` first.
    pub open spec fn after_ticks(self, ticks: Seq<TickEvent>) -> WorldView
        decreases ticks.len(),
    {
        if ticks.len() == 0 {
            self
        } else {
            self.after_ticks(ticks.drop_last()).after_tick(
                ticks.last().input,
                ticks.last().nanos,
                ticks.last().rolls,
                ticks.last().jitter,
            )
        }
    }
}

/// The highest point reached never goes down in a tick.
pub proof fn lemma_height_never_decreases(
    world: WorldView,
    input: Input,
    nanos: u64,
    rolls: SpawnRolls,
    jitter: Line,
)
    ensures
        world.after_tick(input, nanos, rolls, jitter).screen_height.0 >= world.screen_height.0,
{
}

/// The generator still has nothing to do when the tick is over.
pub proof fn lemma_tick_ends_quiescent(
    world: WorldView,
    input: Input,
    nanos: u64,
    rolls: SpawnRolls,
    jitter: Line,
)
    requires
        world.tick_fits(input, nanos, jitter),
    ensures
        world.after_tick(input, nanos, rolls, jitter).quiescent(),
{
}

/// A player whose sideways speed is within the speed limit before a tick is
/// within it after the tick, if it is still there.
pub proof fn lemma_tick_keeps_speed_limit(
    world: WorldView,
    input: Input,
    nanos: u64,
    rolls: SpawnRolls,
    jitter: Line,
)
    requires
        world.player is Some,
        within_speed_limit(world.player.unwrap().velocity.0.x as int),
    ensures
        match world.after_tick(input, nanos, rolls, jitter).player {
            Some(player) => within_speed_limit(player.velocity.0.x as int),
            None => true,
        },
{
    crate::player::lemma_steering_keeps_speed_limit(
        world.player.unwrap().velocity.0.x as int,
        input,
        nanos as int,
    );
}

/// A world without a player stays without one, and a tick in it asks for no
/// more than the generator does.
pub proof fn lemma_no_player_no_return(
    world: WorldView,
    input: Input,
    nanos: u64,
    rolls: SpawnRolls,
    jitter: Line,
)
    requires
        world.player is None,
    ensures
        world.after_tick(input, nanos, rolls, jitter).player is None,
        world.tick_fits(input, nanos, jitter) == world.spawn_fits(jitter),
{
}

/// However many ticks follow one another, the highest point reached never
/// goes down, a player that started within the speed limit is within it as
/// long as it is there, and a player that is gone stays gone.
pub proof fn lemma_ticks_keep_the_course(world: WorldView, ticks: Seq<TickEvent>)
    ensures
        world.after_ticks(ticks).screen_height.0 >= world.screen_height.0,
        world.player is None ==> world.after_ticks(ticks).player is None,
        world.player is Some && within_speed_limit(world.player.unwrap().velocity.0.x as int)
            ==> match world.after_ticks(ticks).player {
            Some(player) => within_speed_limit(player.velocity.0.x as int),
            None => true,
        },
    decreases ticks.len(),
{
    if ticks.len() > 0 {
        let earlier = world.after_ticks(ticks.drop_last());
        let last = ticks.last();
        lemma_ticks_keep_the_course(world, ticks.drop_last());
        lemma_height_never_decreases(earlier, last.input, last.nanos, last.rolls, last.jitter);
        if earlier.player is Some {
            if within_speed_limit(earlier.player.unwrap().velocity.0.x as int) {
                lemma_tick_keeps_speed_limit(
                    earlier,
                    last.input,
                    last.nanos,
                    last.rolls,
                    last.jitter,
                );
            }
        } else {
            lemma_no_player_no_return(earlier, last.input, last.nanos, last.rolls, last.jitter);
        }
    }
}

} // verus!
