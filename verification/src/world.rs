//! The world: the player slot, the platforms and hazards placed so far, and
//! the two frontiers that drive the generator.

use crate::geometry::{Box, CollisionBox, Vec2};
use crate::interpolation::{
    CycleTimer, Direction, InterpolationMode, Interpolator, Line, LineInterpolatorBundle,
};
use crate::player::{Player, Velocity};
use crate::random::uniform_between;
use crate::units::representable;
use vstd::prelude::*;

verus! {

/// The highest point the player has reached so far.
#[derive(Clone, Copy, Debug, PartialEq, Eq, Structural)]
pub struct ScreenHeight(pub i64);

impl Default for ScreenHeight {
    fn default() -> (height: Self)
        ensures
            height == ScreenHeight(0),
    {
        ScreenHeight(0)
    }
}

/// The height up to which platforms have been placed.
#[derive(Clone, Copy, Debug, PartialEq, Eq, Structural)]
pub struct LastPlatformSpawnHeight(pub i64);

impl Default for LastPlatformSpawnHeight {
    fn default() -> (height: Self)
        ensures
            height == LastPlatformSpawnHeight(0),
    {
        LastPlatformSpawnHeight(0)
    }
}

/// The bounding box of an entity drawn at its natural size: one world unit
/// on each side of its centre.
pub open spec fn unit_box() -> CollisionBox {
    CollisionBox(Box { width: crate::units::UNIT, height: crate::units::UNIT })
}

/// Something the player can bounce on.
#[derive(Clone, Copy, Debug, PartialEq, Eq, Structural)]
pub struct Platform {
    pub position: Vec2,
    pub collision_box: CollisionBox,
}

/// Something that ends the session when the player touches it: a spike that
/// stays where it is, or an enemy that patrols a line.
#[derive(Clone, Copy, Debug, PartialEq, Eq, Structural)]
pub struct DamageSource {
    pub position: Vec2,
    pub collision_box: CollisionBox,
    pub patrol: Option<LineInterpolatorBundle>,
}

/// The whole state of a session.
#[derive(Debug)]
pub struct World {
    /// The player, until a hazard removes it.
    pub player: Option<Player>,
    pub platforms: Vec<Platform>,
    pub hazards: Vec<DamageSource>,
    pub screen_height: ScreenHeight,
    pub last_platform_spawn_height: LastPlatformSpawnHeight,
    /// Height at which the camera is placed.
    pub camera_height: i64,
    /// Whether the first platform has been placed.
    pub non_initial: bool,
}

/// The state of a session as a mathematical value.
pub struct WorldView {
    pub player: Option<Player>,
    pub platforms: Seq<Platform>,
    pub hazards: Seq<DamageSource>,
    pub screen_height: ScreenHeight,
    pub last_platform_spawn_height: LastPlatformSpawnHeight,
    pub camera_height: i64,
    pub non_initial: bool,
}

impl View for World {
    type V = WorldView;

    open spec fn view(&self) -> WorldView {
        WorldView {
            player: self.player,
            platforms: self.platforms@,
            hazards: self.hazards@,
            screen_height: self.screen_height,
            last_platform_spawn_height: self.last_platform_spawn_height,
            camera_height: self.camera_height,
            non_initial: self.non_initial,
        }
    }
}

impl WorldView {
    /// The world before anything has happened in it.
    pub open spec fn empty() -> WorldView {
        WorldView {
            player: None,
            platforms: Seq::empty(),
            hazards: Seq::empty(),
            screen_height: ScreenHeight(0),
            last_platform_spawn_height: LastPlatformSpawnHeight(0),
            camera_height: 0,
            non_initial: false,
        }
    }

    /// The world with one more platform.
    pub open spec fn with_platform(self, platform: Platform) -> WorldView {
        WorldView { platforms: self.platforms.push(platform), ..self }
    }

    /// The world with one more hazard.
    pub open spec fn with_hazard(self, hazard: DamageSource) -> WorldView {
        WorldView { hazards: self.hazards.push(hazard), ..self }
    }
}

impl World {
    /// An empty world: no player, nothing placed, both frontiers at zero.
    pub fn new() -> (world: World)
        ensures
            world@ == WorldView::empty(),
    {
        World {
            player: None,
            platforms: Vec::new(),
            hazards: Vec::new(),
            screen_height: ScreenHeight(0),
            last_platform_spawn_height: LastPlatformSpawnHeight(0),
            camera_height: 0,
            non_initial: false,
        }
    }
}

impl Player {
    /// Upward speed of a player that enters the world.
    pub const SPAWN_SPEED: i64 = 550_000;

    /// The player as it enters the world: at the origin, already rising.
    pub open spec fn fresh() -> Player {
        Player {
            position: Vec2 { x: 0, y: 0 },
            velocity: Velocity(Vec2 { x: 0, y: Player::SPAWN_SPEED }),
            collision_box: unit_box(),
        }
    }

    /// The velocity of a player that enters the world.
    pub fn spawn_velocity() -> (velocity: Velocity)
        ensures
            velocity == Player::fresh().velocity,
    {
        Velocity(Vec2::new(0, Player::SPAWN_SPEED))
    }

    /// Puts a fresh player into the world.
    pub fn spawn(world: &mut World)
        ensures
            final(world)@ == (WorldView { player: Some(Player::fresh()), ..old(world)@ }),
    {
        world.player = Some(
            Player {
                position: Vec2::zero(),
                velocity: Player::spawn_velocity(),
                collision_box: CollisionBox(Box::from(Vec2::one())),
            },
        );
    }
}

impl Platform {
    /// Least vertical distance between one platform and the next.
    pub const MIN_DISTANCE: i64 = 175_000;

    /// Platforms are placed at most this far to either side of the middle.
    pub const HORIZONTAL_SPREAD: i64 = 25_000;

    /// A platform of natural size centred at `position`.
    pub open spec fn at(position: Vec2) -> Platform {
        Platform { position, collision_box: unit_box() }
    }

    /// Places a platform at `position`.
    pub fn spawn_at(world: &mut World, position: Vec2)
        ensures
            final(world)@ == old(world)@.with_platform(Platform::at(position)),
    {
        world.platforms.push(
            Platform { position, collision_box: CollisionBox(Box::from(Vec2::one())) },
        );
    }

    /// Places a platform at `spawn_height`, at a random place within the
    /// horizontal spread, and returns that place.
    pub fn spawn_single(world: &mut World, spawn_height: i64) -> (x: i64)
        ensures
            -Platform::HORIZONTAL_SPREAD <= x <= Platform::HORIZONTAL_SPREAD,
            final(world)@ == old(world)@.with_platform(
                Platform::at(Vec2 { x, y: spawn_height }),
            ),
    {
        let x = uniform_between(-Platform::HORIZONTAL_SPREAD, Platform::HORIZONTAL_SPREAD);
        Platform::spawn_at(world, Vec2::new(x, spawn_height));
        x
    }
}

impl DamageSource {
    /// Least height of a hazard above the platform it comes with.
    pub const MIN_OFFSET: i64 = 75_000;

    /// Greatest height of a hazard above the platform it comes with.
    pub const MAX_OFFSET: i64 = 125_000;

    /// One platform in this many carries spikes.
    pub const SPIKES_ODDS: u32 = 4;

    /// One platform in this many has an enemy above it.
    pub const ENEMY_ODDS: u32 = 7;

    /// Distance of an enemy's turning points from the middle, before jitter.
    pub const PATROL_HALF_DISTANCE: i64 = 325_000;

    /// Standard deviation of the horizontal jitter of a turning point.
    pub const PATROL_DEVIATION_X: i64 = 35_000;

    /// Standard deviation of the vertical jitter of a turning point.
    pub const PATROL_DEVIATION_Y: i64 = 20_000;

    /// Time an enemy takes from one turning point to the other, in
    /// nanoseconds.
    pub const PATROL_PERIOD: u64 = 1_250_000_000;

    /// Spikes at `position`.
    pub open spec fn spikes(position: Vec2) -> DamageSource {
        DamageSource { position, collision_box: unit_box(), patrol: None }
    }

    /// The patrol line of an enemy around `height`: the turning points lie
    /// on either side of the middle, each moved by its own `jitter`.
    pub open spec fn patrol_line(height: i64, jitter: Line) -> Line {
        Line(
            Vec2 {
                x: (-(DamageSource::PATROL_HALF_DISTANCE + jitter.0.x)) as i64,
                y: (height + jitter.0.y) as i64,
            },
            Vec2 {
                x: (DamageSource::PATROL_HALF_DISTANCE + jitter.1.x) as i64,
                y: (height + jitter.1.y) as i64,
            },
        )
    }

    /// Whether both turning points of [`DamageSource::patrol_line`] can be
    /// stored.
    pub open spec fn patrol_fits(height: int, jitter: Line) -> bool {
        &&& DamageSource::PATROL_HALF_DISTANCE + jitter.0.x <= i64::MAX
        &&& DamageSource::PATROL_HALF_DISTANCE + jitter.1.x <= i64::MAX
        &&& representable(height + jitter.0.y)
        &&& representable(height + jitter.1.y)
    }

    /// An enemy that starts at the first turning point of its patrol line and
    /// goes back and forth along it.
    pub open spec fn enemy(height: i64, jitter: Line) -> DamageSource {
        let line = DamageSource::patrol_line(height, jitter);
        DamageSource {
            position: line.0,
            collision_box: unit_box(),
            patrol: Some(
                LineInterpolatorBundle {
                    line,
                    interpolator: Interpolator {
                        timer: CycleTimer { duration: DamageSource::PATROL_PERIOD, elapsed: 0 },
                        mode: InterpolationMode::BackAndForth(Direction::Forward),
                    },
                },
            ),
        }
    }

    /// Decides [`DamageSource::patrol_fits`].
    pub fn can_spawn_enemy(spawn_height_source: i64, jitter: &Line) -> (fits: bool)
        ensures
            fits == DamageSource::patrol_fits(spawn_height_source as int, *jitter),
    {
        let left: i128 = spawn_height_source as i128 + jitter.0.y as i128;
        let right: i128 = spawn_height_source as i128 + jitter.1.y as i128;
        jitter.0.x <= i64::MAX - DamageSource::PATROL_HALF_DISTANCE && jitter.1.x <= i64::MAX
            - DamageSource::PATROL_HALF_DISTANCE && i64::MIN as i128 <= left && left
            <= i64::MAX as i128 && i64::MIN as i128 <= right && right <= i64::MAX as i128
    }

    /// Places an enemy that patrols around `spawn_height_source`. The
    /// `jitter` holds, for each turning point, how far it is moved away from
    /// the middle and upward.
    pub fn spawn_enemy(world: &mut World, spawn_height_source: i64, jitter: &Line)
        requires
            DamageSource::patrol_fits(spawn_height_source as int, *jitter),
        ensures
            final(world)@ == old(world)@.with_hazard(
                DamageSource::enemy(spawn_height_source, *jitter),
            ),
    {
        let line = Line(
            Vec2::new(
                -(DamageSource::PATROL_HALF_DISTANCE + jitter.0.x),
                spawn_height_source + jitter.0.y,
            ),
            Vec2::new(
                DamageSource::PATROL_HALF_DISTANCE + jitter.1.x,
                spawn_height_source + jitter.1.y,
            ),
        );
        world.hazards.push(
            DamageSource {
                position: line.0,
                collision_box: CollisionBox(Box::from(Vec2::one())),
                patrol: Some(
                    LineInterpolatorBundle {
                        line,
                        interpolator: Interpolator {
                            timer: CycleTimer::new(DamageSource::PATROL_PERIOD),
                            mode: InterpolationMode::BackAndForth(Direction::default()),
                        },
                    },
                ),
            },
        );
    }

    /// Places spikes at `spawn_pos`.
    pub fn spawn_spikes(world: &mut World, spawn_pos: Vec2)
        ensures
            final(world)@ == old(world)@.with_hazard(DamageSource::spikes(spawn_pos)),
    {
        world.hazards.push(
            DamageSource {
                position: spawn_pos,
                collision_box: CollisionBox(Box::from(Vec2::one())),
                patrol: None,
            },
        );
    }
}

} // verus!
