//! The sprites that the game needs, where the host finds them, and the table
//! in which the host hands over what it has loaded.

use vstd::prelude::*;
use crate::components::{DirectionEnum, SpriteFrames, SpriteRef};

verus! {

/// Whose sprites a set of frames holds.
#[derive(Clone, Copy, Debug, PartialEq, Eq, Hash, Structural)]
pub enum Cast {
    Player,
    Chaser,
}

/// One picture of a set of frames.
#[derive(Clone, Copy, Debug, PartialEq, Eq, Hash, Structural)]
pub enum Pose {
    Facing(DirectionEnum),
    Dead,
}

/// One sprite that the game needs.
#[derive(Clone, Copy, Debug, PartialEq, Eq, Hash, Structural)]
pub enum Asset {
    Frame(Cast, Pose),
    Bullet,
}

/// What the host has loaded of one set of frames.
#[derive(Clone, Copy, Debug, PartialEq, Eq, Hash, Structural)]
pub struct LoadedFrames {
    pub up: Option<SpriteRef>,
    pub down: Option<SpriteRef>,
    pub left: Option<SpriteRef>,
    pub right: Option<SpriteRef>,
    pub dead: Option<SpriteRef>,
}

/// What the host has loaded of the sprites that the game needs.
#[derive(Clone, Copy, Debug, PartialEq, Eq, Hash, Structural)]
pub struct SpriteCatalog {
    pub player: LoadedFrames,
    pub chaser: LoadedFrames,
    pub bullet: Option<SpriteRef>,
}

impl Asset {
    /// Where the host finds the sprite, below its directory of assets:
    /// the directory of the cast, then the pose; the bullet has one shared
    /// picture.
    pub open spec fn location(self) -> Seq<char> {
        match self {
            Asset::Frame(Cast::Player, Pose::Facing(DirectionEnum::Up)) => "player/up.png"@,
            Asset::Frame(Cast::Player, Pose::Facing(DirectionEnum::Down)) => "player/down.png"@,
            Asset::Frame(Cast::Player, Pose::Facing(DirectionEnum::Left)) => "player/left.png"@,
            Asset::Frame(Cast::Player, Pose::Facing(DirectionEnum::Right)) => "player/right.png"@,
            Asset::Frame(Cast::Player, Pose::Dead) => "player/dead.png"@,
            Asset::Frame(Cast::Chaser, Pose::Facing(DirectionEnum::Up)) => "enemies/chaser/up.png"@,
            Asset::Frame(Cast::Chaser, Pose::Facing(DirectionEnum::Down)) =>
                "enemies/chaser/down.png"@,
            Asset::Frame(Cast::Chaser, Pose::Facing(DirectionEnum::Left)) =>
                "enemies/chaser/left.png"@,
            Asset::Frame(Cast::Chaser, Pose::Facing(DirectionEnum::Right)) =>
                "enemies/chaser/right.png"@,
            Asset::Frame(Cast::Chaser, Pose::Dead) => "enemies/chaser/dead.png"@,
            Asset::Bullet => "boolet.png"@,
        }
    }

    /// Every sprite that the game needs, in the order in which a catalog is
    /// searched for gaps: the player's frames, the bullet, the chaser's
    /// frames.
    pub open spec fn roster() -> Seq<Asset> {
        seq![
            Asset::Frame(Cast::Player, Pose::Facing(DirectionEnum::Up)),
            Asset::Frame(Cast::Player, Pose::Facing(DirectionEnum::Down)),
            Asset::Frame(Cast::Player, Pose::Facing(DirectionEnum::Left)),
            Asset::Frame(Cast::Player, Pose::Facing(DirectionEnum::Right)),
            Asset::Frame(Cast::Player, Pose::Dead),
            Asset::Bullet,
            Asset::Frame(Cast::Chaser, Pose::Facing(DirectionEnum::Up)),
            Asset::Frame(Cast::Chaser, Pose::Facing(DirectionEnum::Down)),
            Asset::Frame(Cast::Chaser, Pose::Facing(DirectionEnum::Left)),
            Asset::Frame(Cast::Chaser, Pose::Facing(DirectionEnum::Right)),
            Asset::Frame(Cast::Chaser, Pose::Dead),
        ]
    }

    /// The place of the sprite in the roster.
    pub open spec fn rank(self) -> int {
        match self {
            Asset::Frame(Cast::Player, pose) => pose.rank(),
            Asset::Bullet => 5,
            Asset::Frame(Cast::Chaser, pose) => 6 + pose.rank(),
        }
    }

    /// Every sprite that the game needs, each once.
    pub fn all() -> (r: Vec<Asset>)
        ensures
            r@ == Asset::roster(),
            forall|a: Asset| 0 <= a.rank() < r@.len() && r@[a.rank()] == a,
    {
        let r = vec![
            Asset::Frame(Cast::Player, Pose::Facing(DirectionEnum::Up)),
            Asset::Frame(Cast::Player, Pose::Facing(DirectionEnum::Down)),
            Asset::Frame(Cast::Player, Pose::Facing(DirectionEnum::Left)),
            Asset::Frame(Cast::Player, Pose::Facing(DirectionEnum::Right)),
            Asset::Frame(Cast::Player, Pose::Dead),
            Asset::Bullet,
            Asset::Frame(Cast::Chaser, Pose::Facing(DirectionEnum::Up)),
            Asset::Frame(Cast::Chaser, Pose::Facing(DirectionEnum::Down)),
            Asset::Frame(Cast::Chaser, Pose::Facing(DirectionEnum::Left)),
            Asset::Frame(Cast::Chaser, Pose::Facing(DirectionEnum::Right)),
            Asset::Frame(Cast::Chaser, Pose::Dead),
        ];
        assert(r@ =~= Asset::roster());
        assert forall|a: Asset| 0 <= a.rank() < r@.len() && r@[a.rank()] == a by {
            match a {
                Asset::Frame(_, Pose::Facing(_)) => {},
                _ => {},
            }
        }
        r
    }

    /// Where the host finds the sprite, below its directory of assets.
    pub fn path(self) -> (p: &'static str)
        ensures
            p@ == self.location(),
    {
        match self {
            Asset::Frame(Cast::Player, Pose::Facing(DirectionEnum::Up)) => "player/up.png",
            Asset::Frame(Cast::Player, Pose::Facing(DirectionEnum::Down)) => "player/down.png",
            Asset::Frame(Cast::Player, Pose::Facing(DirectionEnum::Left)) => "player/left.png",
            Asset::Frame(Cast::Player, Pose::Facing(DirectionEnum::Right)) => "player/right.png",
            Asset::Frame(Cast::Player, Pose::Dead) => "player/dead.png",
            Asset::Frame(Cast::Chaser, Pose::Facing(DirectionEnum::Up)) => "enemies/chaser/up.png",
            Asset::Frame(Cast::Chaser, Pose::Facing(DirectionEnum::Down)) =>
                "enemies/chaser/down.png",
            Asset::Frame(Cast::Chaser, Pose::Facing(DirectionEnum::Left)) =>
                "enemies/chaser/left.png",
            Asset::Frame(Cast::Chaser, Pose::Facing(DirectionEnum::Right)) =>
                "enemies/chaser/right.png",
            Asset::Frame(Cast::Chaser, Pose::Dead) => "enemies/chaser/dead.png",
            Asset::Bullet => "boolet.png",
        }
    }
}

impl Pose {
    /// The place of the pose among the five: up, down, left, right, dead.
    pub open spec fn rank(self) -> int {
        match self {
            Pose::Facing(DirectionEnum::Up) => 0,
            Pose::Facing(DirectionEnum::Down) => 1,
            Pose::Facing(DirectionEnum::Left) => 2,
            Pose::Facing(DirectionEnum::Right) => 3,
            Pose::Dead => 4,
        }
    }
}

impl LoadedFrames {
    /// Nothing loaded.
    pub open spec fn nothing() -> LoadedFrames {
        LoadedFrames { up: None, down: None, left: None, right: None, dead: None }
    }

    /// What was loaded for `pose`.
    pub open spec fn at(self, pose: Pose) -> Option<SpriteRef> {
        match pose {
            Pose::Facing(DirectionEnum::Up) => self.up,
            Pose::Facing(DirectionEnum::Down) => self.down,
            Pose::Facing(DirectionEnum::Left) => self.left,
            Pose::Facing(DirectionEnum::Right) => self.right,
            Pose::Dead => self.dead,
        }
    }

    /// These frames with `sprite` loaded for `pose`.
    pub open spec fn with(self, pose: Pose, sprite: SpriteRef) -> LoadedFrames {
        match pose {
            Pose::Facing(DirectionEnum::Up) => LoadedFrames { up: Some(sprite), ..self },
            Pose::Facing(DirectionEnum::Down) => LoadedFrames { down: Some(sprite), ..self },
            Pose::Facing(DirectionEnum::Left) => LoadedFrames { left: Some(sprite), ..self },
            Pose::Facing(DirectionEnum::Right) => LoadedFrames { right: Some(sprite), ..self },
            Pose::Dead => LoadedFrames { dead: Some(sprite), ..self },
        }
    }

    /// The first pose, in the order up, down, left, right, dead, for which
    /// nothing was loaded.
    pub open spec fn gap(self) -> Option<Pose> {
        if self.up.is_none() {
            Some(Pose::Facing(DirectionEnum::Up))
        } else if self.down.is_none() {
            Some(Pose::Facing(DirectionEnum::Down))
        } else if self.left.is_none() {
            Some(Pose::Facing(DirectionEnum::Left))
        } else if self.right.is_none() {
            Some(Pose::Facing(DirectionEnum::Right))
        } else if self.dead.is_none() {
            Some(Pose::Dead)
        } else {
            None
        }
    }

    /// The frames, where all five were loaded.
    pub open spec fn complete(self) -> SpriteFrames
        recommends
            self.gap().is_none(),
    {
        SpriteFrames {
            up: self.up.unwrap(),
            down: self.down.unwrap(),
            left: self.left.unwrap(),
            right: self.right.unwrap(),
            dead: self.dead.unwrap(),
        }
    }

    /// The frames where all five were loaded, else the first pose that is
    /// missing.
    pub fn resolve(&self) -> (r: Result<SpriteFrames, Pose>)
        ensures
            match self.gap() {
                None => r == Ok::<SpriteFrames, Pose>(self.complete()),
                Some(pose) => r == Err::<SpriteFrames, Pose>(pose),
            },
    {
        match (self.up, self.down, self.left, self.right, self.dead) {
            (Some(up), Some(down), Some(left), Some(right), Some(dead)) => Ok(
                SpriteFrames { up, down, left, right, dead },
            ),
            (None, _, _, _, _) => Err(Pose::Facing(DirectionEnum::Up)),
            (_, None, _, _, _) => Err(Pose::Facing(DirectionEnum::Down)),
            (_, _, None, _, _) => Err(Pose::Facing(DirectionEnum::Left)),
            (_, _, _, None, _) => Err(Pose::Facing(DirectionEnum::Right)),
            (_, _, _, _, None) => Err(Pose::Dead),
        }
    }
}

impl SpriteCatalog {
    /// The table with nothing loaded.
    pub open spec fn nothing() -> SpriteCatalog {
        SpriteCatalog {
            player: LoadedFrames::nothing(),
            chaser: LoadedFrames::nothing(),
            bullet: None,
        }
    }

    /// What was loaded for `asset`.
    pub open spec fn at(self, asset: Asset) -> Option<SpriteRef> {
        match asset {
            Asset::Frame(Cast::Player, pose) => self.player.at(pose),
            Asset::Frame(Cast::Chaser, pose) => self.chaser.at(pose),
            Asset::Bullet => self.bullet,
        }
    }

    /// This table with `sprite` loaded for `asset`.
    pub open spec fn with(self, asset: Asset, sprite: SpriteRef) -> SpriteCatalog {
        match asset {
            Asset::Frame(Cast::Player, pose) => SpriteCatalog {
                player: self.player.with(pose, sprite),
                ..self
            },
            Asset::Frame(Cast::Chaser, pose) => SpriteCatalog {
                chaser: self.chaser.with(pose, sprite),
                ..self
            },
            Asset::Bullet => SpriteCatalog { bullet: Some(sprite), ..self },
        }
    }

    /// The first asset for which nothing was loaded: the player's frames come
    /// first, then the bullet, then the chaser's frames.
    pub open spec fn gap(self) -> Option<Asset> {
        if self.player.gap().is_some() {
            Some(Asset::Frame(Cast::Player, self.player.gap().unwrap()))
        } else if self.bullet.is_none() {
            Some(Asset::Bullet)
        } else if self.chaser.gap().is_some() {
            Some(Asset::Frame(Cast::Chaser, self.chaser.gap().unwrap()))
        } else {
            None
        }
    }

    /// The table with nothing loaded.
    pub fn new() -> (c: SpriteCatalog)
        ensures
            c == SpriteCatalog::nothing(),
            forall|a: Asset| c.at(a).is_none(),
    {
        let none = LoadedFrames { up: None, down: None, left: None, right: None, dead: None };
        let c = SpriteCatalog { player: none, chaser: none, bullet: None };
        assert forall|a: Asset| c.at(a).is_none() by {
            match a {
                Asset::Frame(_, Pose::Facing(_)) => {},
                _ => {},
            }
        }
        c
    }

    /// Records that `sprite` was loaded for `asset`.
    pub fn insert(&mut self, asset: Asset, sprite: SpriteRef)
        ensures
            *final(self) == old(self).with(asset, sprite),
            final(self).at(asset) == Some(sprite),
            forall|other: Asset| other != asset ==> final(self).at(other) == old(self).at(other),
    {
        match asset {
            Asset::Frame(Cast::Player, pose) => {
                self.player = put(self.player, pose, sprite);
            },
            Asset::Frame(Cast::Chaser, pose) => {
                self.chaser = put(self.chaser, pose, sprite);
            },
            Asset::Bullet => {
                self.bullet = Some(sprite);
            },
        }
    }

    /// What was loaded for `asset`.
    pub fn get(&self, asset: Asset) -> (r: Option<SpriteRef>)
        ensures
            r == self.at(asset),
    {
        match asset {
            Asset::Frame(Cast::Player, pose) => pick(self.player, pose),
            Asset::Frame(Cast::Chaser, pose) => pick(self.chaser, pose),
            Asset::Bullet => self.bullet,
        }
    }
}

/// The gap of a catalog is the first sprite of the roster for which nothing
/// was loaded, and there is none where everything was loaded.
pub proof fn lemma_gap_is_first(c: SpriteCatalog)
    ensures
        c.gap().is_none() <==> forall|a: Asset| c.at(a).is_some(),
        c.gap().is_some() ==> c.at(c.gap().unwrap()).is_none() && forall|b: Asset|
            b.rank() < c.gap().unwrap().rank() ==> c.at(b).is_some(),
{
    if c.gap().is_none() {
        assert forall|a: Asset| c.at(a).is_some() by {
            match a {
                Asset::Frame(_, Pose::Facing(_)) => {},
                _ => {},
            }
        }
    } else {
        let g = c.gap().unwrap();
        assert(c.at(g).is_none());
        assert forall|b: Asset| b.rank() < g.rank() implies c.at(b).is_some() by {
            match b {
                Asset::Frame(_, Pose::Facing(_)) => {},
                _ => {},
            }
            match g {
                Asset::Frame(_, Pose::Facing(_)) => {},
                _ => {},
            }
        }
    }
}

/// What `frames` hold for `pose`.
fn pick(frames: LoadedFrames, pose: Pose) -> (r: Option<SpriteRef>)
    ensures
        r == frames.at(pose),
{
    match pose {
        Pose::Facing(DirectionEnum::Up) => frames.up,
        Pose::Facing(DirectionEnum::Down) => frames.down,
        Pose::Facing(DirectionEnum::Left) => frames.left,
        Pose::Facing(DirectionEnum::Right) => frames.right,
        Pose::Dead => frames.dead,
    }
}

/// `frames` with `sprite` for `pose`.
fn put(frames: LoadedFrames, pose: Pose, sprite: SpriteRef) -> (r: LoadedFrames)
    ensures
        r == frames.with(pose, sprite),
        r.at(pose) == Some(sprite),
        forall|other: Pose| other != pose ==> r.at(other) == frames.at(other),
{
    match pose {
        Pose::Facing(DirectionEnum::Up) => LoadedFrames { up: Some(sprite), ..frames },
        Pose::Facing(DirectionEnum::Down) => LoadedFrames { down: Some(sprite), ..frames },
        Pose::Facing(DirectionEnum::Left) => LoadedFrames { left: Some(sprite), ..frames },
        Pose::Facing(DirectionEnum::Right) => LoadedFrames { right: Some(sprite), ..frames },
        Pose::Dead => LoadedFrames { dead: Some(sprite), ..frames },
    }
}

} // verus!
