//! The game as a whole: the world, the mode machine, and the frame that
//! runs what the mode asks for.

use vstd::prelude::*;
use crate::assets::{Asset, Cast, SpriteCatalog};
use crate::components::{
    AppState, Collider, Direction, DirectionEnum, EnemyAI, Health, Keys, Shooter, Speed,
    SpriteFrames, SpriteRef, Transform,
};
use crate::entity::Entity;
use crate::modes::{pause, pause_handler, Modes};
use crate::rules::{CHASER_HP, CHASER_SPEED, PLAYER_COOLDOWN, PLAYER_HP, PLAYER_SPEED, START};
use crate::systems::tick;
use crate::world::{Scene, SimError, World};

verus! {

impl Entity {
    /// The camera as the game starts with it: at the origin, scrolling.
    pub open spec fn camera_kit() -> Entity {
        Entity { scrolling: true, transform: Some(Transform::at(0, 0)), ..Entity::blank() }
    }

    /// The player as the game starts with it: alive, facing up and showing
    /// the sprite for it, controlled by the keys, ready to fire bullets with
    /// the sprite `bullet`.
    pub open spec fn player_kit(frames: SpriteFrames, bullet: SpriteRef) -> Entity {
        Entity {
            player: true,
            controllable: true,
            transform: Some(Transform::at(START, START)),
            health: Some(Health { hp: PLAYER_HP }),
            speed: Some(Speed { speed: PLAYER_SPEED }),
            direction: Some(Direction { direction: DirectionEnum::Up }),
            shooter: Some(
                Shooter { bullet_sprite: bullet, time_out: 0, max_time_out: PLAYER_COOLDOWN },
            ),
            frames: Some(frames),
            sprite: Some(frames.up),
            collider: Some(Collider::Player),
            ..Entity::blank()
        }
    }

    /// The enemy that the game starts with: a living chaser, facing up and
    /// showing the sprite for it.
    pub open spec fn chaser_kit(frames: SpriteFrames) -> Entity {
        Entity {
            enemy: true,
            transform: Some(Transform::at(START, START)),
            health: Some(Health { hp: CHASER_HP }),
            speed: Some(Speed { speed: CHASER_SPEED }),
            direction: Some(Direction { direction: DirectionEnum::Up }),
            frames: Some(frames),
            sprite: Some(frames.up),
            collider: Some(Collider::Enemy),
            ai: Some(EnemyAI::Chaser),
            ..Entity::blank()
        }
    }

    /// The camera as the game starts with it.
    pub fn camera() -> (e: Entity)
        ensures
            e == Entity::camera_kit(),
    {
        Entity { scrolling: true, transform: Some(Transform::from_xy(0, 0)), ..Entity::empty() }
    }

    /// The player as the game starts with it.
    pub fn player(frames: SpriteFrames, bullet: SpriteRef) -> (e: Entity)
        ensures
            e == Entity::player_kit(frames, bullet),
    {
        Entity {
            player: true,
            controllable: true,
            transform: Some(Transform::from_xy(START, START)),
            health: Some(Health { hp: PLAYER_HP }),
            speed: Some(Speed { speed: PLAYER_SPEED }),
            direction: Some(Direction { direction: DirectionEnum::Up }),
            shooter: Some(
                Shooter { bullet_sprite: bullet, time_out: 0, max_time_out: PLAYER_COOLDOWN },
            ),
            frames: Some(frames),
            sprite: Some(frames.up),
            collider: Some(Collider::Player),
            ..Entity::empty()
        }
    }

    /// The enemy that the game starts with.
    pub fn chaser(frames: SpriteFrames) -> (e: Entity)
        ensures
            e == Entity::chaser_kit(frames),
    {
        Entity {
            enemy: true,
            transform: Some(Transform::from_xy(START, START)),
            health: Some(Health { hp: CHASER_HP }),
            speed: Some(Speed { speed: CHASER_SPEED }),
            direction: Some(Direction { direction: DirectionEnum::Up }),
            frames: Some(frames),
            sprite: Some(frames.up),
            collider: Some(Collider::Enemy),
            ai: Some(EnemyAI::Chaser),
            ..Entity::empty()
        }
    }
}

impl Scene {
    /// The scene with the camera, the player and the first enemy added, in
    /// this order, built from sprites that are all there.
    pub open spec fn populated(self, catalog: SpriteCatalog) -> Scene {
        self.spawned(Entity::camera_kit()).spawned(
            Entity::player_kit(catalog.player.complete(), catalog.bullet.unwrap()),
        ).spawned(Entity::chaser_kit(catalog.chaser.complete()))
    }

    /// What building the world leads to, with the machine in `modes`: the
    /// populated scene and the machine with the running game asked for, or
    /// the reason why nothing is built. The sprites are looked at first,
    /// then the machine, then the identifiers.
    pub open spec fn started(self, modes: Modes, catalog: SpriteCatalog) -> Result<
        (Scene, Modes),
        SimError,
    > {
        if catalog.gap().is_some() {
            Err(SimError::MissingAsset(catalog.gap().unwrap()))
        } else if modes.asked(AppState::InGame).is_err() {
            Err(SimError::Transition(modes.asked(AppState::InGame).unwrap_err()))
        } else if self.next_id > u64::MAX - 3 {
            Err(SimError::StoreExhausted)
        } else {
            Ok((self.populated(catalog), modes.asked(AppState::InGame).unwrap()))
        }
    }
}

/// Builds the world when the game starts: adds the camera, the player and
/// the first enemy, and asks the mode machine for the running game. Fails
/// before any change where a sprite is missing, where the machine turns the
/// request down, or where the world has too few identifiers left.
pub fn setup_game(world: &mut World, modes: &mut Modes, catalog: &SpriteCatalog) -> (r: Result<
    (),
    SimError,
>)
    requires
        old(world).wf(),
    ensures
        final(world).wf(),
        match old(world)@.started(*old(modes), *catalog) {
            Ok((scene, m)) => r == Ok::<(), SimError>(()) && final(world)@ == scene && *final(modes)
                == m,
            Err(e) => r == Err::<(), SimError>(e) && final(world)@ == old(world)@ && *final(modes)
                == *old(modes),
        },
{
    let player_frames: SpriteFrames = match catalog.player.resolve() {
        Ok(f) => f,
        Err(pose) => {
            return Err(SimError::MissingAsset(Asset::Frame(Cast::Player, pose)));
        },
    };
    let bullet: SpriteRef = match catalog.bullet {
        Some(s) => s,
        None => {
            return Err(SimError::MissingAsset(Asset::Bullet));
        },
    };
    let chaser_frames: SpriteFrames = match catalog.chaser.resolve() {
        Ok(f) => f,
        Err(pose) => {
            return Err(SimError::MissingAsset(Asset::Frame(Cast::Chaser, pose)));
        },
    };
    let mut asked: Modes = *modes;
    match asked.set(AppState::InGame) {
        Ok(()) => {},
        Err(e) => {
            return Err(SimError::Transition(e));
        },
    }
    if world.next_id() > u64::MAX - 3 {
        return Err(SimError::StoreExhausted);
    }
    let _ = world.spawn(Entity::camera());
    let _ = world.spawn(Entity::player(player_frames, bullet));
    let _ = world.spawn(Entity::chaser(chaser_frames));
    *modes = asked;
    Ok(())
}

/// The game as a driver sees it between two frames: the mode, the scene,
/// and the sprites that the host has loaded.
pub struct Stage {
    pub mode: AppState,
    pub scene: Scene,
    pub catalog: SpriteCatalog,
}

impl Stage {
    /// The game before anything has happened: an empty world, in `mode`.
    pub open spec fn opening(mode: AppState, catalog: SpriteCatalog) -> Stage {
        Stage { mode, scene: Scene::vacant(), catalog }
    }

    /// What entering `to` leads to. Entering the start of the game builds
    /// the world and passes on to the running game; where the world cannot
    /// be built the mode is not entered. Entering any other mode changes
    /// nothing but the mode.
    pub open spec fn entering(self, to: AppState) -> Result<Stage, SimError> {
        match to {
            AppState::StartGame => match self.scene.started(
                Modes::resting(AppState::StartGame),
                self.catalog,
            ) {
                Ok((scene, _)) => Ok(
                    Stage { mode: AppState::InGame, scene, catalog: self.catalog },
                ),
                Err(e) => Err(e),
            },
            _ => Ok(Stage { mode: to, scene: self.scene, catalog: self.catalog }),
        }
    }

    /// What asking for the mode `next` between two frames leads to.
    pub open spec fn requested(self, next: AppState) -> Result<Stage, SimError> {
        match Modes::resting(self.mode).asked(next) {
            Err(e) => Err(SimError::Transition(e)),
            Ok(_) => self.entering(next),
        }
    }

    /// The game after one frame, and how the frame ended. While the game
    /// runs, the frame is one frame of the game loop, after which the pause
    /// key leads to the pause; a game loop that fails leaves the mode as it
    /// is. While the game rests, nothing moves, and the pause key leads back
    /// to the running game. In every other mode nothing happens.
    pub open spec fn after_frame(self, keys: Keys, dt: u64) -> (Stage, Result<(), SimError>) {
        match self.mode {
            AppState::InGame => {
                let (scene, ended) = self.scene.after_tick(keys, dt);
                (
                    Stage {
                        mode: if ended.is_ok() && keys.pause {
                            AppState::Paused
                        } else {
                            AppState::InGame
                        },
                        scene,
                        catalog: self.catalog,
                    },
                    ended,
                )
            },
            AppState::Paused => (
                Stage {
                    mode: if keys.pause { AppState::InGame } else { AppState::Paused },
                    scene: self.scene,
                    catalog: self.catalog,
                },
                Ok(()),
            ),
            _ => (self, Ok(())),
        }
    }
}

/// The game: the world, the mode machine, and the sprites that the host has
/// loaded. Between two calls no change of mode is waiting.
#[derive(Clone, Debug, PartialEq, Eq)]
pub struct Simulation {
    modes: Modes,
    world: World,
    catalog: SpriteCatalog,
}

impl View for Simulation {
    type V = Stage;

    closed spec fn view(&self) -> Stage {
        Stage { mode: self.modes.current, scene: self.world@, catalog: self.catalog }
    }
}

impl Simulation {
    /// Whether the game is in order: the world is, and no change of mode is
    /// waiting.
    pub closed spec fn wf(&self) -> bool {
        self.world.wf() && self.modes.scheduled.is_none()
    }

    /// The scene of a game in order is in order.
    pub proof fn lemma_scene_wf(&self)
        requires
            self.wf(),
        ensures
            self@.scene.wf(),
    {
    }

    /// Starts in `mode` with an empty world, and enters the mode. Fails
    /// where the mode cannot be entered.
    pub fn new(mode: AppState, catalog: SpriteCatalog) -> (r: Result<Simulation, SimError>)
        ensures
            match Stage::opening(mode, catalog).entering(mode) {
                Ok(stage) => r matches Ok(sim) && sim@ == stage && sim.wf(),
                Err(e) => r matches Err(x) && x == e,
            },
    {
        let mut sim = Simulation { modes: Modes::new(mode), world: World::new(), catalog };
        match sim.enter(mode) {
            Ok(()) => {},
            Err(e) => {
                return Err(e);
            },
        }
        match sim.settle() {
            Ok(()) => Ok(sim),
            Err(e) => Err(e),
        }
    }

    /// The mode the game is in.
    pub fn mode(&self) -> (m: AppState)
        ensures
            m == self@.mode,
    {
        self.modes.current
    }

    /// The world.
    pub fn world(&self) -> (w: &World)
        ensures
            w@ == self@.scene,
            self.wf() ==> w.wf(),
    {
        &self.world
    }

    /// The sprites that the host has loaded.
    pub fn catalog(&self) -> (c: SpriteCatalog)
        ensures
            c == self@.catalog,
    {
        self.catalog
    }

    /// Changes to the mode `next` between two frames. Fails, and leaves the
    /// game as it is, where the game is in that mode already or the mode
    /// cannot be entered.
    pub fn request(&mut self, next: AppState) -> (r: Result<(), SimError>)
        requires
            old(self).wf(),
        ensures
            final(self).wf(),
            match old(self)@.requested(next) {
                Ok(stage) => r == Ok::<(), SimError>(()) && final(self)@ == stage,
                Err(e) => r == Err::<(), SimError>(e) && final(self)@ == old(self)@,
            },
    {
        match self.modes.set(next) {
            Ok(()) => {},
            Err(e) => {
                return Err(SimError::Transition(e));
            },
        }
        self.settle()
    }

    /// Runs one frame of `dt` microseconds with `keys` held: what the mode
    /// asks for, and then the change of mode that the frame asked for. An
    /// error of the game loop is returned, and the mode stays.
    pub fn frame(&mut self, keys: Keys, dt: u64) -> (r: Result<(), SimError>)
        requires
            old(self).wf(),
        ensures
            final(self).wf(),
            final(self)@ == old(self)@.after_frame(keys, dt).0,
            r == old(self)@.after_frame(keys, dt).1,
    {
        match self.modes.current {
            AppState::InGame => {
                match tick(&mut self.world, keys, dt) {
                    Ok(()) => {},
                    Err(e) => {
                        return Err(e);
                    },
                }
                match pause_handler(&mut self.modes, keys) {
                    Ok(()) => {},
                    Err(e) => {
                        return Err(SimError::Transition(e));
                    },
                }
            },
            AppState::Paused => {
                match pause(&mut self.modes, keys) {
                    Ok(()) => {},
                    Err(e) => {
                        return Err(SimError::Transition(e));
                    },
                }
            },
            AppState::Menu | AppState::StartGame | AppState::GameOver => {},
        }
        self.settle()
    }

    /// Does what entering `mode` asks for, with the machine in that mode.
    fn enter(&mut self, mode: AppState) -> (r: Result<(), SimError>)
        requires
            old(self).world.wf(),
            old(self).modes == Modes::resting(mode),
        ensures
            final(self).world.wf(),
            final(self).catalog == old(self).catalog,
            match old(self)@.entering(mode) {
                Ok(stage) => r == Ok::<(), SimError>(()) && final(self).world@ == stage.scene
                    && final(self).modes == if mode == AppState::StartGame {
                    Modes { current: mode, scheduled: Some(stage.mode) }
                } else {
                    old(self).modes
                },
                Err(e) => r == Err::<(), SimError>(e) && final(self).world@ == old(self).world@
                    && final(self).modes == old(self).modes,
            },
    {
        match mode {
            AppState::StartGame => setup_game(&mut self.world, &mut self.modes, &self.catalog),
            AppState::Menu | AppState::InGame | AppState::Paused | AppState::GameOver => Ok(()),
        }
    }

    /// Carries out the change of mode that is waiting, if any: enters the
    /// new mode, and the mode that this one passes on to. Where a mode
    /// cannot be entered the game stays in the mode it was in.
    fn settle(&mut self) -> (r: Result<(), SimError>)
        requires
            old(self).world.wf(),
        ensures
            final(self).wf(),
            match old(self).modes.scheduled {
                None => r == Ok::<(), SimError>(()) && final(self)@ == old(self)@,
                Some(to) => match old(self)@.entering(to) {
                    Ok(stage) => r == Ok::<(), SimError>(()) && final(self)@ == stage,
                    Err(e) => r == Err::<(), SimError>(e) && final(self)@ == old(self)@,
                },
            },
    {
        let (left, to): (AppState, AppState) = match self.modes.take() {
            Some(pair) => pair,
            None => {
                return Ok(());
            },
        };
        match self.enter(to) {
            Ok(()) => {},
            Err(e) => {
                self.modes = Modes::new(left);
                return Err(e);
            },
        }
        match self.modes.take() {
            Some((_, next)) => self.enter(next),
            None => Ok(()),
        }
    }
}

} // verus!
