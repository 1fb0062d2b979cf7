//! The generator that keeps platforms and hazards placed ahead of the player.

use crate::geometry::Vec2;
use crate::interpolation::Line;
use crate::random::{chance, uniform_between};
use crate::world::{
    DamageSource, LastPlatformSpawnHeight, Platform, ScreenHeight, World, WorldView,
};
use vstd::prelude::*;

verus! {

/// How far above the highest point reached the world is kept populated.
pub const SPAWN_BOUNDS: i64 = 128_000;

/// The random choices that go into one generated platform.
pub struct SpawnRolls {
    /// Where the platform lies sideways.
    pub x: i64,
    /// How far above the platform its hazards lie.
    pub offset: i64,
    /// Whether the platform carries spikes.
    pub spikes: bool,
    /// Whether an enemy patrols above the platform.
    pub enemy: bool,
}

impl SpawnRolls {
    /// Whether the choices are among those that the generator can make.
    pub open spec fn in_range(self) -> bool {
        &&& -Platform::HORIZONTAL_SPREAD <= self.x <= Platform::HORIZONTAL_SPREAD
        &&& DamageSource::MIN_OFFSET <= self.offset <= DamageSource::MAX_OFFSET
    }
}

/// Whether platforms populated up to `populated` reach far enough above the
/// highest point `reached`.
pub open spec fn frontier_quiescent(
    reached: ScreenHeight,
    populated: LastPlatformSpawnHeight,
) -> bool {
    reached.0 + SPAWN_BOUNDS < populated.0 + Platform::MIN_DISTANCE
}

/// The height of the next platform when the highest point reached is
/// `reached`.
pub open spec fn next_spawn_height(reached: ScreenHeight) -> int {
    reached.0 + SPAWN_BOUNDS + Platform::MIN_DISTANCE
}

/// Whether everything the generator may place can be stored, whatever it
/// chooses.
pub open spec fn frontier_fits(
    reached: ScreenHeight,
    populated: LastPlatformSpawnHeight,
    non_initial: bool,
    jitter: Line,
) -> bool {
    !frontier_quiescent(reached, populated) ==> {
        &&& next_spawn_height(reached) <= i64::MAX
        &&& non_initial ==> {
            &&& next_spawn_height(reached) + DamageSource::MAX_OFFSET <= i64::MAX
            &&& DamageSource::patrol_fits(
                next_spawn_height(reached) + DamageSource::MIN_OFFSET,
                jitter,
            )
            &&& DamageSource::patrol_fits(
                next_spawn_height(reached) + DamageSource::MAX_OFFSET,
                jitter,
            )
        }
    }
}

/// Decides [`frontier_quiescent`].
pub fn is_frontier_quiescent(
    reached: ScreenHeight,
    populated: LastPlatformSpawnHeight,
) -> (quiet: bool)
    ensures
        quiet == frontier_quiescent(reached, populated),
{
    (reached.0 as i128) + (SPAWN_BOUNDS as i128) < (populated.0 as i128) + (
    Platform::MIN_DISTANCE as i128)
}

/// Decides [`frontier_fits`].
pub fn can_populate(
    reached: ScreenHeight,
    populated: LastPlatformSpawnHeight,
    non_initial: bool,
    jitter: &Line,
) -> (fits: bool)
    ensures
        fits == frontier_fits(reached, populated, non_initial, *jitter),
{
    if is_frontier_quiescent(reached, populated) {
        return true;
    }
    let height: i128 = (reached.0 as i128) + (SPAWN_BOUNDS as i128) + (
    Platform::MIN_DISTANCE as i128);
    if height > i64::MAX as i128 {
        return false;
    }
    if !non_initial {
        return true;
    }
    if height + (DamageSource::MAX_OFFSET as i128) > i64::MAX as i128 {
        return false;
    }
    let lowest: i64 = (height + (DamageSource::MIN_OFFSET as i128)) as i64;
    let highest: i64 = (height + (DamageSource::MAX_OFFSET as i128)) as i64;
    DamageSource::can_spawn_enemy(lowest, jitter) && DamageSource::can_spawn_enemy(
        highest,
        jitter,
    )
}

impl WorldView {
    /// The world with the hazards that go with a platform: spikes at
    /// `position` if `spikes` is set, then an enemy around the height of
    /// `position` if `enemy` is set.
    pub open spec fn decorated(
        self,
        position: Vec2,
        spikes: bool,
        enemy: bool,
        jitter: Line,
    ) -> WorldView {
        let spiked = if spikes {
            self.with_hazard(DamageSource::spikes(position))
        } else {
            self
        };
        if enemy {
            spiked.with_hazard(DamageSource::enemy(position.y, jitter))
        } else {
            spiked
        }
    }

    /// Whether the populated part of the world reaches far enough above the
    /// highest point reached, so that the generator has nothing to do.
    pub open spec fn quiescent(self) -> bool {
        frontier_quiescent(self.screen_height, self.last_platform_spawn_height)
    }

    /// The height at which the generator places its next platform.
    pub open spec fn next_spawn_height(self) -> int {
        next_spawn_height(self.screen_height)
    }

    /// Whether everything the generator may place in this world can be
    /// stored, whatever it chooses.
    pub open spec fn spawn_fits(self, jitter: Line) -> bool {
        frontier_fits(
            self.screen_height,
            self.last_platform_spawn_height,
            self.non_initial,
            jitter,
        )
    }

    /// The world after the generator has placed one platform with the given
    /// choices. The very first platform comes without hazards, whatever the
    /// choices are.
    pub open spec fn with_row(self, rolls: SpawnRolls, jitter: Line) -> WorldView {
        let height = self.next_spawn_height() as i64;
        let raised = WorldView {
            last_platform_spawn_height: LastPlatformSpawnHeight(height),
            non_initial: true,
            ..self.with_platform(Platform::at(Vec2 { x: rolls.x, y: height }))
        };
        if self.non_initial {
            raised.decorated(
                Vec2 { x: rolls.x, y: (height + rolls.offset) as i64 },
                rolls.spikes,
                rolls.enemy,
                jitter,
            )
        } else {
            raised
        }
    }

    /// The world after the generator has run: unchanged if there was nothing
    /// to do, and one platform richer otherwise.
    pub open spec fn after_spawner(self, rolls: SpawnRolls, jitter: Line) -> WorldView {
        if self.quiescent() {
            self
        } else {
            self.with_row(rolls, jitter)
        }
    }
}

impl DamageSource {
    /// Places the hazards that go with a platform: spikes at `position` if
    /// `with_spikes` is set, then an enemy around the height of `position` if
    /// `with_enemy` is set.
    pub fn spawn_above(
        world: &mut World,
        position: Vec2,
        with_spikes: bool,
        with_enemy: bool,
        jitter: &Line,
    )
        requires
            with_enemy ==> DamageSource::patrol_fits(position.y as int, *jitter),
        ensures
            final(world)@ == old(world)@.decorated(position, with_spikes, with_enemy, *jitter),
    {
        if with_spikes {
            DamageSource::spawn_spikes(world, position);
        }
        if with_enemy {
            DamageSource::spawn_enemy(world, position.y, jitter);
        }
    }
}

impl World {
    /// Decides [`WorldView::quiescent`].
    pub fn is_quiescent(&self) -> (quiet: bool)
        ensures
            quiet == self@.quiescent(),
    {
        is_frontier_quiescent(self.screen_height, self.last_platform_spawn_height)
    }

    /// Decides [`WorldView::spawn_fits`].
    pub fn can_spawn(&self, jitter: &Line) -> (fits: bool)
        ensures
            fits == self@.spawn_fits(*jitter),
    {
        can_populate(
            self.screen_height,
            self.last_platform_spawn_height,
            self.non_initial,
            jitter,
        )
    }
}

/// Runs the generator until the populated part of the world reaches far
/// enough above the highest point reached. Each platform is placed one
/// minimum distance above that reach; every platform but the very first one
/// comes with spikes one time in four and with an enemy one time in seven.
/// The `jitter` moves the turning points of an enemy.
pub fn platform_spawner(world: &mut World, jitter: &Line)
    requires
        old(world)@.spawn_fits(*jitter),
    ensures
        exists|rolls: SpawnRolls| #[trigger]
            rolls.in_range() && final(world)@ == old(world)@.after_spawner(rolls, *jitter),
        final(world)@.quiescent(),
        final(world).screen_height == old(world).screen_height,
{
    let ghost before = world@;
    let ghost mut rolls = SpawnRolls {
        x: 0,
        offset: DamageSource::MIN_OFFSET,
        spikes: false,
        enemy: false,
    };
    while !world.is_quiescent()
        invariant
            rolls.in_range(),
            before.spawn_fits(*jitter),
            world@ == before || (!before.quiescent() && world@.quiescent() && world@
                == before.with_row(rolls, *jitter)),
        decreases
            (if world@.quiescent() { 0int } else { 1int }),
    {
        let height: i64 = world.screen_height.0 + SPAWN_BOUNDS + Platform::MIN_DISTANCE;
        world.last_platform_spawn_height = LastPlatformSpawnHeight(height);
        let x = Platform::spawn_single(world, height);
        if world.non_initial {
            let offset = uniform_between(DamageSource::MIN_OFFSET, DamageSource::MAX_OFFSET);
            let spikes = chance(1, DamageSource::SPIKES_ODDS);
            let enemy = chance(1, DamageSource::ENEMY_ODDS);
            proof {
                rolls = SpawnRolls { x, offset, spikes, enemy };
            }
            DamageSource::spawn_above(world, Vec2::new(x, height + offset), spikes, enemy, jitter);
        } else {
            proof {
                rolls = SpawnRolls {
                    x,
                    offset: DamageSource::MIN_OFFSET,
                    spikes: false,
                    enemy: false,
                };
            }
            world.non_initial = true;
        }
    }
}

/// Once the generator has run, it has nothing left to do: the populated part
/// of the world reaches past the highest point reached plus the spawn bounds,
/// less than one minimum distance short of it.
pub proof fn lemma_spawner_reaches_quiescence(world: WorldView, rolls: SpawnRolls, jitter: Line)
    requires
        world.spawn_fits(jitter),
    ensures
        world.after_spawner(rolls, jitter).quiescent(),
        world.after_spawner(rolls, jitter).screen_height == world.screen_height,
        world.after_spawner(rolls, jitter).last_platform_spawn_height.0
            >= world.screen_height.0 - SPAWN_BOUNDS,
{
}

/// The generator places at most one platform each time it runs, and never
/// takes anything away.
pub proof fn lemma_spawner_places_one_row(world: WorldView, rolls: SpawnRolls, jitter: Line)
    ensures
        world.quiescent() ==> world.after_spawner(rolls, jitter) == world,
        !world.quiescent() ==> world.after_spawner(rolls, jitter).platforms.len()
            == world.platforms.len() + 1,
        world.platforms.is_prefix_of(world.after_spawner(rolls, jitter).platforms),
        world.hazards.is_prefix_of(world.after_spawner(rolls, jitter).hazards),
        world.after_spawner(rolls, jitter).hazards.len() <= world.hazards.len() + 2,
{
}

/// The very first platform comes without hazards, whatever the generator
/// chooses.
pub proof fn lemma_first_platform_is_safe(world: WorldView, rolls: SpawnRolls, jitter: Line)
    requires
        !world.non_initial,
    ensures
        world.after_spawner(rolls, jitter).hazards == world.hazards,
{
}

} // verus!
