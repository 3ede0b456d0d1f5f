//! An entity with its components, and what each system does to one entity.

use vstd::prelude::*;
use crate::components::{
    Collider, Damage, Direction, DirectionEnum, EnemyAI, Expire, Faction, FactionEnum, Heading,
    Health, Keys, Shooter, Speed, SpriteFrames, SpriteRef, Transform,
};
use crate::rules::{
    BAND_ABOVE, BAND_BELOW, BULLET_DAMAGE, BULLET_LIFETIME, BULLET_SPEED, CHASER_DRIFT,
    MUZZLE_OFFSET, SCROLL_SPEED, X_LIMIT,
};
use crate::units::{
    clamp, clamp_wide, diagonal_share, diagonal_share_of, saturate, saturate_coord, travel,
    travel_of,
};

verus! {

/// `step` taken forward, backward or not at all, by the sign given.
pub open spec fn along(sign: int, step: int) -> int {
    if sign > 0 {
        step
    } else if sign < 0 {
        -step
    } else {
        0
    }
}

/// `step` taken forward, backward or not at all, by the sign given.
pub fn along_of(sign: i8, step: i64) -> (r: i128)
    ensures
        r as int == along(sign as int, step as int),
{
    if sign > 0 {
        step as i128
    } else if sign < 0 {
        -(step as i128)
    } else {
        0
    }
}

impl Keys {
    /// The horizontal sign of the sum of the held keys' unit steps.
    pub fn x_axis(&self) -> (r: i8)
        ensures
            r as int == self.axis_x(),
    {
        let right: i8 = if self.right { 1 } else { 0 };
        let left: i8 = if self.left { 1 } else { 0 };
        right - left
    }

    /// The vertical sign of the sum of the held keys' unit steps.
    pub fn y_axis(&self) -> (r: i8)
        ensures
            r as int == self.axis_y(),
    {
        let up: i8 = if self.up { 1 } else { 0 };
        let down: i8 = if self.down { 1 } else { 0 };
        up - down
    }
}

impl DirectionEnum {
    /// The signs of the step of length one in this direction.
    pub fn signs(self) -> (r: (i8, i8))
        ensures
            (r.0 as int, r.1 as int) == self.unit(),
    {
        match self {
            DirectionEnum::Up => (0, 1),
            DirectionEnum::Down => (0, -1),
            DirectionEnum::Left => (-1, 0),
            DirectionEnum::Right => (1, 0),
        }
    }
}

impl Transform {
    /// A place with the top pointing up.
    pub open spec fn at(x: i64, y: i64) -> Transform {
        Transform { x, y, heading: Heading::upright() }
    }

    /// A place with the top pointing up.
    pub fn from_xy(x: i64, y: i64) -> (t: Transform)
        ensures
            t == Transform::at(x, y),
    {
        Transform { x, y, heading: Heading { dx: 0, dy: 1 } }
    }

    /// Whether the place lies in the horizontal band of controlled entities.
    pub open spec fn in_width(self) -> bool {
        -X_LIMIT <= self.x <= X_LIMIT
    }

    /// Whether the place lies in the vertical band that a camera at height
    /// `camera_y` allows to controlled entities.
    pub open spec fn in_band(self, camera_y: i64) -> bool {
        camera_y - BAND_BELOW <= self.y <= camera_y + BAND_ABOVE
    }

    /// The place `dist` micro-units further in direction `d`, held within the
    /// coordinate range; the orientation stays.
    pub open spec fn shifted(self, d: DirectionEnum, dist: int) -> Transform {
        Transform {
            x: saturate(self.x + along(d.unit().0, dist)) as i64,
            y: saturate(self.y + along(d.unit().1, dist)) as i64,
            heading: self.heading,
        }
    }

    /// The place after one frame of steering by `keys` at `speed`, seen by a
    /// camera at height `camera_y`. The held keys' unit steps are summed; a
    /// sum along one axis moves the full distance of the frame, a diagonal
    /// one moves each axis by the diagonal share of it. After a move the
    /// horizontal position is held within the playing width. The vertical
    /// position is held within the camera's band in every frame.
    pub open spec fn steered(self, keys: Keys, speed: u32, dt: u64, camera_y: i64) -> Transform {
        let dist = travel(speed as int, dt as int);
        let step = if keys.axis_x() != 0 && keys.axis_y() != 0 {
            diagonal_share(dist)
        } else {
            dist
        };
        let x = if keys.axis_x() != 0 || keys.axis_y() != 0 {
            clamp(self.x + along(keys.axis_x(), step), -X_LIMIT as int, X_LIMIT as int)
        } else {
            self.x as int
        };
        let y = saturate(
            clamp(
                self.y + along(keys.axis_y(), step),
                camera_y - BAND_BELOW,
                camera_y + BAND_ABOVE,
            ),
        );
        Transform { x: x as i64, y: y as i64, heading: self.heading }
    }

    /// The place after one frame of chasing a target at `(tx, ty)`: the top
    /// turns to the target, unless the target is at this very place, and the
    /// place drifts upward at the chasers' fixed rate, whatever the turn.
    pub open spec fn chasing(self, tx: i64, ty: i64, dt: u64) -> Transform {
        Transform {
            x: self.x,
            y: saturate(self.y + travel(CHASER_DRIFT as int, dt as int)) as i64,
            heading: if tx == self.x && ty == self.y {
                self.heading
            } else {
                Heading { dx: (tx - self.x) as i128, dy: (ty - self.y) as i128 }
            },
        }
    }

    /// The place after one frame of the camera's climb.
    pub open spec fn scrolled(self, dt: u64) -> Transform {
        self.shifted(DirectionEnum::Up, travel(SCROLL_SPEED as int, dt as int))
    }

    /// Moves `dist` micro-units in direction `d`.
    pub fn shift(self, d: DirectionEnum, dist: i64) -> (t: Transform)
        ensures
            t == self.shifted(d, dist as int),
    {
        let (sx, sy) = d.signs();
        Transform {
            x: saturate_coord(self.x as i128 + along_of(sx, dist)),
            y: saturate_coord(self.y as i128 + along_of(sy, dist)),
            heading: self.heading,
        }
    }

    /// One frame of steering.
    pub fn steer(self, keys: Keys, speed: u32, dt: u64, camera_y: i64) -> (t: Transform)
        ensures
            t == self.steered(keys, speed, dt, camera_y),
            t.in_band(camera_y),
            keys.axis_x() != 0 || keys.axis_y() != 0 ==> t.in_width(),
            self.in_width() ==> t.in_width(),
    {
        let ax: i8 = keys.x_axis();
        let ay: i8 = keys.y_axis();
        let dist: i64 = travel_of(speed, dt);
        let step: i64 = if ax != 0 && ay != 0 {
            diagonal_share_of(dist)
        } else {
            dist
        };
        let x: i64 = if ax != 0 || ay != 0 {
            clamp_wide(self.x as i128 + along_of(ax, step), -(X_LIMIT as i128), X_LIMIT as i128)
                as i64
        } else {
            self.x
        };
        let y: i64 = saturate_coord(
            clamp_wide(
                self.y as i128 + along_of(ay, step),
                camera_y as i128 - BAND_BELOW as i128,
                camera_y as i128 + BAND_ABOVE as i128,
            ),
        );
        Transform { x, y, heading: self.heading }
    }

    /// One frame of chasing a target at `(tx, ty)`.
    pub fn chase(self, tx: i64, ty: i64, dt: u64) -> (t: Transform)
        ensures
            t == self.chasing(tx, ty, dt),
    {
        let heading = if tx == self.x && ty == self.y {
            self.heading
        } else {
            Heading { dx: tx as i128 - self.x as i128, dy: ty as i128 - self.y as i128 }
        };
        Transform {
            x: self.x,
            y: saturate_coord(self.y as i128 + travel_of(CHASER_DRIFT, dt) as i128),
            heading,
        }
    }

    /// One frame of the camera's climb.
    pub fn scroll(self, dt: u64) -> (t: Transform)
        ensures
            t == self.scrolled(dt),
    {
        self.shift(DirectionEnum::Up, travel_of(SCROLL_SPEED, dt))
    }
}

impl Shooter {
    /// Whether a shot is allowed: the wait is over.
    pub open spec fn ready(self) -> bool {
        self.time_out == 0
    }

    /// The firing state after a frame in which the fire key was held: a
    /// shooter that was ready has fired and starts its full wait; then the
    /// frame's time comes off the wait, which never falls below zero.
    pub open spec fn cooled(self, dt: u64) -> Shooter {
        let wait = if self.ready() { self.max_time_out } else { self.time_out };
        Shooter {
            bullet_sprite: self.bullet_sprite,
            time_out: if wait >= dt { (wait - dt) as u64 } else { 0 },
            max_time_out: self.max_time_out,
        }
    }

    /// One frame with the fire key held.
    pub fn cool(self, dt: u64) -> (s: Shooter)
        ensures
            s == self.cooled(dt),
    {
        let wait: u64 = if self.time_out == 0 { self.max_time_out } else { self.time_out };
        Shooter {
            bullet_sprite: self.bullet_sprite,
            time_out: if wait >= dt { wait - dt } else { 0 },
            max_time_out: self.max_time_out,
        }
    }
}

impl Expire {
    /// The countdown after a frame of `dt` microseconds; none once it has run
    /// out, which is when the frame is at least as long as what was left.
    pub open spec fn aged(self, dt: u64) -> Option<Expire> {
        if dt >= self.time {
            None
        } else {
            Some(Expire { time: (self.time - dt) as u64 })
        }
    }

    /// One frame of the countdown.
    pub fn age(self, dt: u64) -> (r: Option<Expire>)
        ensures
            r == self.aged(dt),
            r.is_none() <==> dt >= self.time,
            r.is_some() ==> r.unwrap().time + dt == self.time,
    {
        if dt >= self.time {
            None
        } else {
            Some(Expire { time: self.time - dt })
        }
    }
}

/// An entity: an identifier, its markers and its components, each of which
/// may be absent.
#[derive(Clone, Copy, Debug, PartialEq, Eq, Hash)]
pub struct Entity {
    /// The identifier that the world gave it.
    pub id: u64,
    /// Marks the player.
    pub player: bool,
    /// Marks an enemy.
    pub enemy: bool,
    /// Marks a bullet.
    pub bullet: bool,
    /// Marks an entity that the keys steer.
    pub controllable: bool,
    /// Marks the camera that scrolls.
    pub scrolling: bool,
    pub transform: Option<Transform>,
    pub health: Option<Health>,
    pub speed: Option<Speed>,
    pub damage: Option<Damage>,
    pub direction: Option<Direction>,
    pub faction: Option<Faction>,
    pub shooter: Option<Shooter>,
    pub expire: Option<Expire>,
    /// The sprites to choose from.
    pub frames: Option<SpriteFrames>,
    /// The sprite shown now.
    pub sprite: Option<SpriteRef>,
    pub collider: Option<Collider>,
    pub ai: Option<EnemyAI>,
}

impl Entity {
    /// The entity with no marker and no component.
    pub open spec fn blank() -> Entity {
        Entity {
            id: 0,
            player: false,
            enemy: false,
            bullet: false,
            controllable: false,
            scrolling: false,
            transform: None,
            health: None,
            speed: None,
            damage: None,
            direction: None,
            faction: None,
            shooter: None,
            expire: None,
            frames: None,
            sprite: None,
            collider: None,
            ai: None,
        }
    }

    /// The entity with no marker and no component.
    pub fn empty() -> (e: Entity)
        ensures
            e == Entity::blank(),
    {
        Entity {
            id: 0,
            player: false,
            enemy: false,
            bullet: false,
            controllable: false,
            scrolling: false,
            transform: None,
            health: None,
            speed: None,
            damage: None,
            direction: None,
            faction: None,
            shooter: None,
            expire: None,
            frames: None,
            sprite: None,
            collider: None,
            ai: None,
        }
    }

    /// Whether the entity is dead: it has health, and no hit point left.
    pub open spec fn dead(self) -> bool {
        self.health.is_some() && self.health.unwrap().hp <= 0
    }

    /// Whether the movement system looks at the entity.
    pub open spec fn steerable(self) -> bool {
        &&& self.controllable
        &&& self.speed.is_some()
        &&& self.direction.is_some()
        &&& self.transform.is_some()
    }

    /// Whether the shooting system looks at the entity.
    pub open spec fn armed(self) -> bool {
        &&& self.controllable
        &&& self.direction.is_some()
        &&& self.shooter.is_some()
        &&& self.transform.is_some()
    }

    /// Whether the entity fires in a frame in which the fire key is held.
    pub open spec fn fires(self) -> bool {
        self.armed() && self.shooter.unwrap().ready()
    }

    /// Whether the bullet system looks at the entity.
    pub open spec fn flying(self) -> bool {
        &&& self.bullet
        &&& self.speed.is_some()
        &&& self.transform.is_some()
        &&& self.direction.is_some()
    }

    /// Whether the chase system moves the entity: a living chaser.
    pub open spec fn hunting(self) -> bool {
        &&& self.ai == Some(EnemyAI::Chaser)
        &&& self.transform.is_some()
        &&& self.speed.is_some()
        &&& self.health.is_some()
        &&& self.health.unwrap().hp > 0
    }

    /// The entity after the movement system. A dead entity, and one that the
    /// system does not look at, stay as they are. Any other turns to the last
    /// of the held keys, shows the sprite for it where it has sprites to
    /// choose from, and is steered.
    pub open spec fn moved(self, keys: Keys, dt: u64, camera_y: i64) -> Entity {
        if !self.steerable() || self.dead() {
            self
        } else {
            Entity {
                direction: match keys.facing() {
                    Some(d) => Some(Direction { direction: d }),
                    None => self.direction,
                },
                sprite: match (keys.facing(), self.frames) {
                    (Some(d), Some(f)) => Some(f.facing(d)),
                    _ => self.sprite,
                },
                transform: Some(
                    self.transform.unwrap().steered(keys, self.speed.unwrap().speed, dt, camera_y),
                ),
                ..self
            }
        }
    }

    /// The entity after the shooting system, in a frame with the fire key
    /// held: its wait is updated.
    pub open spec fn cooled(self, dt: u64) -> Entity {
        if !self.armed() {
            self
        } else {
            Entity { shooter: Some(self.shooter.unwrap().cooled(dt)), ..self }
        }
    }

    /// The bullet that an armed entity fires, under the identifier `id`: it
    /// appears in front of the shooter, points and faces the way the shooter
    /// faces, and is on the players' side.
    pub open spec fn bullet_of(self, id: u64) -> Entity {
        let d = self.direction.unwrap().direction;
        Entity {
            id,
            bullet: true,
            transform: Some(
                Transform {
                    heading: d.pointing(),
                    ..self.transform.unwrap().shifted(d, MUZZLE_OFFSET as int)
                },
            ),
            speed: Some(Speed { speed: BULLET_SPEED }),
            damage: Some(Damage { damage: BULLET_DAMAGE }),
            direction: Some(Direction { direction: d }),
            faction: Some(Faction { faction: FactionEnum::Players }),
            expire: Some(Expire { time: BULLET_LIFETIME }),
            sprite: Some(self.shooter.unwrap().bullet_sprite),
            collider: Some(Collider::Bullet),
            ..Entity::blank()
        }
    }

    /// The entity after the bullet system: a bullet advances along the one
    /// axis of the direction it faces.
    pub open spec fn flown(self, dt: u64) -> Entity {
        if !self.flying() {
            self
        } else {
            Entity {
                transform: Some(
                    self.transform.unwrap().shifted(
                        self.direction.unwrap().direction,
                        travel(self.speed.unwrap().speed as int, dt as int),
                    ),
                ),
                ..self
            }
        }
    }

    /// The entity after the expiry system; none where its countdown ran out.
    pub open spec fn aged(self, dt: u64) -> Option<Entity> {
        match self.expire {
            None => Some(self),
            Some(x) => match x.aged(dt) {
                None => None,
                Some(left) => Some(Entity { expire: Some(left), ..self }),
            },
        }
    }

    /// The entity after the chase system, with the player at `(px, py)`.
    pub open spec fn chased(self, px: i64, py: i64, dt: u64) -> Entity {
        if !self.hunting() {
            self
        } else {
            Entity { transform: Some(self.transform.unwrap().chasing(px, py, dt)), ..self }
        }
    }

    /// The camera after the scroll system.
    pub open spec fn scrolled(self, dt: u64) -> Entity {
        match self.transform {
            Some(t) => Entity { transform: Some(t.scrolled(dt)), ..self },
            None => self,
        }
    }

    /// Whether the entity has health and no hit point left.
    pub fn is_dead(&self) -> (r: bool)
        ensures
            r == self.dead(),
    {
        match self.health {
            Some(h) => h.hp <= 0,
            None => false,
        }
    }

    /// Whether the entity fires in a frame in which the fire key is held.
    pub fn will_fire(&self) -> (r: bool)
        ensures
            r == self.fires(),
    {
        match (self.direction, self.shooter, self.transform) {
            (Some(_), Some(s), Some(_)) => self.controllable && s.time_out == 0,
            _ => false,
        }
    }

    /// One frame of the movement system.
    pub fn step_movement(self, keys: Keys, dt: u64, camera_y: i64) -> (r: Entity)
        ensures
            r == self.moved(keys, dt, camera_y),
            self.steerable() && !self.dead() ==> r.transform.unwrap().in_band(camera_y),
            self.steerable() && self.transform.unwrap().in_width()
                ==> r.transform.unwrap().in_width(),
            self.steerable() && !self.dead() && keys.facing().is_some()
                ==> r.direction == Some(Direction { direction: keys.facing().unwrap() }),
    {
        if !self.controllable || self.is_dead() {
            return self;
        }
        match (self.speed, self.direction, self.transform) {
            (Some(speed), Some(_), Some(t)) => {
                let turn = keys.last_direction();
                Entity {
                    direction: match turn {
                        Some(d) => Some(Direction { direction: d }),
                        None => self.direction,
                    },
                    sprite: match (turn, self.frames) {
                        (Some(d), Some(f)) => Some(f.frame(d)),
                        _ => self.sprite,
                    },
                    transform: Some(t.steer(keys, speed.speed, dt, camera_y)),
                    ..self
                }
            },
            _ => self,
        }
    }

    /// One frame of the shooting system with the fire key held: the entity
    /// with its wait updated, and the bullet under the identifier `id` if it
    /// fired.
    pub fn step_shooting(self, dt: u64, id: u64) -> (r: (Entity, Option<Entity>))
        ensures
            r.0 == self.cooled(dt),
            r.1 == if self.fires() { Some(self.bullet_of(id)) } else { None },
    {
        if !self.controllable {
            return (self, None);
        }
        match (self.direction, self.shooter, self.transform) {
            (Some(facing), Some(shooter), Some(t)) => {
                let d = facing.direction;
                let bullet: Option<Entity> = if shooter.time_out == 0 {
                    let place = t.shift(d, MUZZLE_OFFSET);
                    Some(
                        Entity {
                            id,
                            bullet: true,
                            transform: Some(
                                Transform { x: place.x, y: place.y, heading: d.heading() },
                            ),
                            speed: Some(Speed { speed: BULLET_SPEED }),
                            damage: Some(Damage { damage: BULLET_DAMAGE }),
                            direction: Some(Direction { direction: d }),
                            faction: Some(Faction { faction: FactionEnum::Players }),
                            expire: Some(Expire { time: BULLET_LIFETIME }),
                            sprite: Some(shooter.bullet_sprite),
                            collider: Some(Collider::Bullet),
                            ..Entity::empty()
                        },
                    )
                } else {
                    None
                };
                (Entity { shooter: Some(shooter.cool(dt)), ..self }, bullet)
            },
            _ => (self, None),
        }
    }

    /// One frame of the bullet system.
    pub fn step_bullet(self, dt: u64) -> (r: Entity)
        ensures
            r == self.flown(dt),
    {
        if !self.bullet {
            return self;
        }
        match (self.speed, self.transform, self.direction) {
            (Some(speed), Some(t), Some(facing)) => Entity {
                transform: Some(t.shift(facing.direction, travel_of(speed.speed, dt))),
                ..self
            },
            _ => self,
        }
    }

    /// One frame of the expiry system; none where the entity is to be
    /// removed.
    pub fn step_expiry(self, dt: u64) -> (r: Option<Entity>)
        ensures
            r == self.aged(dt),
            r.is_none() <==> self.expire.is_some() && dt >= self.expire.unwrap().time,
    {
        match self.expire {
            None => Some(self),
            Some(x) => match x.age(dt) {
                None => None,
                Some(left) => Some(Entity { expire: Some(left), ..self }),
            },
        }
    }

    /// One frame of the chase system, with the player at `(px, py)`.
    pub fn step_chase(self, px: i64, py: i64, dt: u64) -> (r: Entity)
        ensures
            r == self.chased(px, py, dt),
            self.dead() ==> r == self,
    {
        match (self.ai, self.transform, self.speed, self.health) {
            (Some(EnemyAI::Chaser), Some(t), Some(_), Some(h)) => {
                if h.hp > 0 {
                    Entity { transform: Some(t.chase(px, py, dt)), ..self }
                } else {
                    self
                }
            },
            (Some(EnemyAI::Gunner), _, _, _) => self,
            _ => self,
        }
    }

    /// One frame of the scroll system, for the camera.
    pub fn step_scroll(self, dt: u64) -> (r: Entity)
        ensures
            r == self.scrolled(dt),
    {
        match self.transform {
            Some(t) => Entity { transform: Some(t.scroll(dt)), ..self },
            None => self,
        }
    }
}

} // verus!
