//! The data that can be attached to an entity, and one frame's input.

use vstd::prelude::*;

verus! {

/// The modes of the game.
#[derive(Clone, Copy, Debug, PartialEq, Eq, Hash, Structural)]
pub enum AppState {
    /// The title screen.
    Menu,
    /// Passed through once to build the world, so that leaving a pause does
    /// not build it again.
    StartGame,
    /// The game loop runs.
    InGame,
    /// The game loop rests.
    Paused,
    /// The game has ended.
    GameOver,
}

/// What an entity counts as when two of them touch.
#[derive(Clone, Copy, Debug, PartialEq, Eq, Hash, Structural)]
pub enum Collider {
    Player,
    Enemy,
    Bullet,
    Environment,
}

/// The side that an entity without a side of its own is on.
#[derive(Clone, Copy, Debug, PartialEq, Eq, Hash, Structural)]
pub enum FactionEnum {
    Players,
    Enemies,
}

/// One of the four cardinal directions.
#[derive(Clone, Copy, Debug, PartialEq, Eq, Hash, Structural)]
pub enum DirectionEnum {
    Up,
    Down,
    Left,
    Right,
}

/// How an enemy behaves.
#[derive(Clone, Copy, Debug, PartialEq, Eq, Hash, Structural)]
pub enum EnemyAI {
    /// Turns to the player.
    Chaser,
    /// Has no behaviour yet.
    Gunner,
}

/// An opaque handle to a sprite that the host has loaded.
#[derive(Clone, Copy, Debug, PartialEq, Eq, Hash, Structural)]
pub struct SpriteRef {
    pub id: u32,
}

/// Hit points; an entity with none left is dead.
#[derive(Clone, Copy, Debug, PartialEq, Eq, Hash, Structural)]
pub struct Health {
    pub hp: i16,
}

/// Movement rate in units per second.
#[derive(Clone, Copy, Debug, PartialEq, Eq, Hash, Structural)]
pub struct Speed {
    pub speed: u32,
}

/// Hit points taken from a target.
#[derive(Clone, Copy, Debug, PartialEq, Eq, Hash, Structural)]
pub struct Damage {
    pub damage: i16,
}

/// The direction in which an entity last meant to move.
#[derive(Clone, Copy, Debug, PartialEq, Eq, Hash, Structural)]
pub struct Direction {
    pub direction: DirectionEnum,
}

/// The side an entity is on.
#[derive(Clone, Copy, Debug, PartialEq, Eq, Hash, Structural)]
pub struct Faction {
    pub faction: FactionEnum,
}

/// Firing state: the sprite of the bullets, the microseconds until the next
/// shot is allowed, and the microseconds to wait after a shot.
#[derive(Clone, Copy, Debug, PartialEq, Eq, Hash, Structural)]
pub struct Shooter {
    pub bullet_sprite: SpriteRef,
    pub time_out: u64,
    pub max_time_out: u64,
}

/// Microseconds until the entity is removed.
#[derive(Clone, Copy, Debug, PartialEq, Eq, Hash, Structural)]
pub struct Expire {
    pub time: u64,
}

/// The sprites of an entity, one for each direction and one for when it is
/// dead.
#[derive(Clone, Copy, Debug, PartialEq, Eq, Hash, Structural)]
pub struct SpriteFrames {
    pub up: SpriteRef,
    pub down: SpriteRef,
    pub left: SpriteRef,
    pub right: SpriteRef,
    pub dead: SpriteRef,
}

/// An orientation, given as the offset that the top of the entity points
/// along. Only the direction of the offset matters, not its length; the zero
/// offset stands for no turn at all.
#[derive(Clone, Copy, Debug, PartialEq, Eq, Hash, Structural)]
pub struct Heading {
    pub dx: i128,
    pub dy: i128,
}

/// Where an entity is, in micro-units, and how it is turned.
#[derive(Clone, Copy, Debug, PartialEq, Eq, Hash, Structural)]
pub struct Transform {
    pub x: i64,
    pub y: i64,
    pub heading: Heading,
}

/// A key of the keyboard that the game listens to.
#[derive(Clone, Copy, Debug, PartialEq, Eq, Hash, Structural)]
pub enum Key {
    Left,
    Right,
    Up,
    Down,
    Z,
    Escape,
}

/// The keys held down during one frame.
#[derive(Clone, Copy, Debug, PartialEq, Eq, Hash, Structural)]
pub struct Keys {
    pub left: bool,
    pub right: bool,
    pub up: bool,
    pub down: bool,
    pub fire: bool,
    pub pause: bool,
}

impl DirectionEnum {
    /// The step of length one in this direction.
    pub open spec fn unit(self) -> (int, int) {
        match self {
            DirectionEnum::Up => (0, 1),
            DirectionEnum::Down => (0, -1),
            DirectionEnum::Left => (-1, 0),
            DirectionEnum::Right => (1, 0),
        }
    }

    /// The counter-clockwise turn, in degrees, that points the top of an
    /// entity in this direction.
    pub open spec fn turn(self) -> int {
        match self {
            DirectionEnum::Up => 0,
            DirectionEnum::Down => 180,
            DirectionEnum::Left => 90,
            DirectionEnum::Right => -90,
        }
    }

    /// The orientation of an entity that points in this direction.
    pub open spec fn pointing(self) -> Heading {
        Heading { dx: self.unit().0 as i128, dy: self.unit().1 as i128 }
    }

    /// The orientation of an entity that points in this direction.
    pub fn heading(self) -> (h: Heading)
        ensures
            h == self.pointing(),
            h.quarter_turn() == Some(self.turn()),
    {
        match self {
            DirectionEnum::Up => Heading { dx: 0, dy: 1 },
            DirectionEnum::Down => Heading { dx: 0, dy: -1 },
            DirectionEnum::Left => Heading { dx: -1, dy: 0 },
            DirectionEnum::Right => Heading { dx: 1, dy: 0 },
        }
    }
}

impl Heading {
    /// The orientation of an entity that was never turned: its top points up.
    pub open spec fn upright() -> Heading {
        Heading { dx: 0, dy: 1 }
    }

    /// The counter-clockwise turn in degrees, for an orientation along one of
    /// the two axes; none for any other.
    pub open spec fn quarter_turn(self) -> Option<int> {
        if self.dx == 0 && self.dy > 0 {
            Some(0)
        } else if self.dx == 0 && self.dy < 0 {
            Some(180)
        } else if self.dy == 0 && self.dx < 0 {
            Some(90)
        } else if self.dy == 0 && self.dx > 0 {
            Some(-90)
        } else {
            None
        }
    }

    /// The turn in degrees of an orientation along an axis: 0 for up, 90 for
    /// left, 180 for down, -90 for right.
    pub fn degrees(&self) -> (r: Option<i16>)
        ensures
            r.is_some() == self.quarter_turn().is_some(),
            r.is_some() ==> r.unwrap() as int == self.quarter_turn().unwrap(),
    {
        if self.dx == 0 && self.dy > 0 {
            Some(0)
        } else if self.dx == 0 && self.dy < 0 {
            Some(180)
        } else if self.dy == 0 && self.dx < 0 {
            Some(90)
        } else if self.dy == 0 && self.dx > 0 {
            Some(-90)
        } else {
            None
        }
    }
}

impl SpriteFrames {
    /// The sprite for an entity that faces `d`.
    pub open spec fn facing(self, d: DirectionEnum) -> SpriteRef {
        match d {
            DirectionEnum::Up => self.up,
            DirectionEnum::Down => self.down,
            DirectionEnum::Left => self.left,
            DirectionEnum::Right => self.right,
        }
    }

    /// The sprite for an entity that faces `d`.
    pub fn frame(&self, d: DirectionEnum) -> (s: SpriteRef)
        ensures
            s == self.facing(d),
    {
        match d {
            DirectionEnum::Up => self.up,
            DirectionEnum::Down => self.down,
            DirectionEnum::Left => self.left,
            DirectionEnum::Right => self.right,
        }
    }
}

impl Keys {
    /// No key held.
    pub open spec fn idle() -> Keys {
        Keys { left: false, right: false, up: false, down: false, fire: false, pause: false }
    }

    /// The direction that the held keys turn an entity to. The keys are
    /// applied in the order left, right, up, down, and the last one wins.
    pub open spec fn facing(self) -> Option<DirectionEnum> {
        if self.down {
            Some(DirectionEnum::Down)
        } else if self.up {
            Some(DirectionEnum::Up)
        } else if self.right {
            Some(DirectionEnum::Right)
        } else if self.left {
            Some(DirectionEnum::Left)
        } else {
            None
        }
    }

    /// The horizontal sign of the sum of the held keys' unit steps.
    pub open spec fn axis_x(self) -> int {
        (if self.right { 1int } else { 0 }) - (if self.left { 1int } else { 0 })
    }

    /// The vertical sign of the sum of the held keys' unit steps.
    pub open spec fn axis_y(self) -> int {
        (if self.up { 1int } else { 0 }) - (if self.down { 1int } else { 0 })
    }

    /// What the held keys of the keyboard mean to the game: the four arrows
    /// steer, `Z` fires, and `Escape` pauses and resumes.
    pub open spec fn of(held: Seq<Key>) -> Keys {
        Keys {
            left: held.contains(Key::Left),
            right: held.contains(Key::Right),
            up: held.contains(Key::Up),
            down: held.contains(Key::Down),
            fire: held.contains(Key::Z),
            pause: held.contains(Key::Escape),
        }
    }

    /// What the keys in `held` mean to the game; a key may be named more
    /// than once.
    pub fn holding(held: &Vec<Key>) -> (k: Keys)
        ensures
            k == Keys::of(held@),
    {
        let mut k = Keys::none();
        let n: usize = held.len();
        let mut i: usize = 0;
        while i < n
            invariant
                0 <= i <= n,
                n == held@.len(),
                k == Keys::of(held@.take(i as int)),
            decreases n - i,
        {
            let ghost before = held@.take(i as int);
            let ghost after = held@.take(i as int + 1);
            proof {
                assert(after =~= before.push(held@[i as int]));
                assert forall|key: Key| after.contains(key) <==> (before.contains(key) || key
                    == held@[i as int]) by {
                    if before.contains(key) {
                        let j = choose|j: int| 0 <= j < before.len() && before[j] == key;
                        assert(after[j] == key);
                    }
                    if key == held@[i as int] {
                        assert(after[i as int] == key);
                    }
                }
            }
            match held[i] {
                Key::Left => {
                    k.left = true;
                },
                Key::Right => {
                    k.right = true;
                },
                Key::Up => {
                    k.up = true;
                },
                Key::Down => {
                    k.down = true;
                },
                Key::Z => {
                    k.fire = true;
                },
                Key::Escape => {
                    k.pause = true;
                },
            }
            i += 1;
        }
        proof {
            assert(held@.take(n as int) =~= held@);
        }
        k
    }

    /// No key held.
    pub fn none() -> (k: Keys)
        ensures
            k == Keys::idle(),
    {
        Keys { left: false, right: false, up: false, down: false, fire: false, pause: false }
    }

    /// The direction that the held keys turn an entity to, if any is held.
    pub fn last_direction(&self) -> (d: Option<DirectionEnum>)
        ensures
            d == self.facing(),
    {
        if self.down {
            Some(DirectionEnum::Down)
        } else if self.up {
            Some(DirectionEnum::Up)
        } else if self.right {
            Some(DirectionEnum::Right)
        } else if self.left {
            Some(DirectionEnum::Left)
        } else {
            None
        }
    }
}

} // verus!
