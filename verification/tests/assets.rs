use undivey::assets::{Asset, Cast, LoadedFrames, Pose, SpriteCatalog};
use undivey::components::{DirectionEnum, SpriteFrames, SpriteRef};

#[test]
fn the_paths_of_the_sprites() {
    let up = Pose::Facing(DirectionEnum::Up);
    let down = Pose::Facing(DirectionEnum::Down);
    let left = Pose::Facing(DirectionEnum::Left);
    let right = Pose::Facing(DirectionEnum::Right);
    assert_eq!(Asset::Frame(Cast::Player, up).path(), "player/up.png");
    assert_eq!(Asset::Frame(Cast::Player, down).path(), "player/down.png");
    assert_eq!(Asset::Frame(Cast::Player, left).path(), "player/left.png");
    assert_eq!(Asset::Frame(Cast::Player, right).path(), "player/right.png");
    assert_eq!(Asset::Frame(Cast::Player, Pose::Dead).path(), "player/dead.png");
    assert_eq!(Asset::Frame(Cast::Chaser, up).path(), "enemies/chaser/up.png");
    assert_eq!(Asset::Frame(Cast::Chaser, down).path(), "enemies/chaser/down.png");
    assert_eq!(Asset::Frame(Cast::Chaser, left).path(), "enemies/chaser/left.png");
    assert_eq!(Asset::Frame(Cast::Chaser, right).path(), "enemies/chaser/right.png");
    assert_eq!(Asset::Frame(Cast::Chaser, Pose::Dead).path(), "enemies/chaser/dead.png");
    assert_eq!(Asset::Bullet.path(), "boolet.png");
}

#[test]
fn a_new_catalog_holds_nothing() {
    let catalog = SpriteCatalog::new();
    assert_eq!(catalog.get(Asset::Bullet), None);
    assert_eq!(catalog.get(Asset::Frame(Cast::Player, Pose::Dead)), None);
    assert_eq!(catalog.get(Asset::Frame(Cast::Chaser, Pose::Facing(DirectionEnum::Left))), None);
}

#[test]
fn what_is_put_in_is_found_where_it_was_put() {
    let mut catalog = SpriteCatalog::new();
    let chaser_left = Asset::Frame(Cast::Chaser, Pose::Facing(DirectionEnum::Left));
    catalog.insert(chaser_left, SpriteRef { id: 3 });
    catalog.insert(Asset::Bullet, SpriteRef { id: 4 });
    assert_eq!(
        catalog.get(Asset::Frame(Cast::Chaser, Pose::Facing(DirectionEnum::Left))),
        Some(SpriteRef { id: 3 })
    );
    assert_eq!(catalog.get(Asset::Bullet), Some(SpriteRef { id: 4 }));
    assert_eq!(catalog.get(Asset::Frame(Cast::Player, Pose::Facing(DirectionEnum::Left))), None);
    assert_eq!(catalog.get(Asset::Frame(Cast::Chaser, Pose::Facing(DirectionEnum::Right))), None);
    catalog.insert(Asset::Bullet, SpriteRef { id: 5 });
    assert_eq!(catalog.get(Asset::Bullet), Some(SpriteRef { id: 5 }));
    assert_eq!(catalog.chaser.left, Some(SpriteRef { id: 3 }));
}

#[test]
fn frames_resolve_when_all_five_are_there() {
    let mut frames = LoadedFrames {
        up: Some(SpriteRef { id: 1 }),
        down: Some(SpriteRef { id: 2 }),
        left: Some(SpriteRef { id: 3 }),
        right: Some(SpriteRef { id: 4 }),
        dead: Some(SpriteRef { id: 5 }),
    };
    assert_eq!(
        frames.resolve(),
        Ok(SpriteFrames {
            up: SpriteRef { id: 1 },
            down: SpriteRef { id: 2 },
            left: SpriteRef { id: 3 },
            right: SpriteRef { id: 4 },
            dead: SpriteRef { id: 5 },
        })
    );
    frames.dead = None;
    assert_eq!(frames.resolve(), Err(Pose::Dead));
    frames.down = None;
    assert_eq!(frames.resolve(), Err(Pose::Facing(DirectionEnum::Down)));
    frames.up = None;
    assert_eq!(frames.resolve(), Err(Pose::Facing(DirectionEnum::Up)));
}

#[test]
fn frames_are_chosen_by_direction() {
    let frames = SpriteFrames {
        up: SpriteRef { id: 1 },
        down: SpriteRef { id: 2 },
        left: SpriteRef { id: 3 },
        right: SpriteRef { id: 4 },
        dead: SpriteRef { id: 5 },
    };
    assert_eq!(frames.frame(DirectionEnum::Up), SpriteRef { id: 1 });
    assert_eq!(frames.frame(DirectionEnum::Down), SpriteRef { id: 2 });
    assert_eq!(frames.frame(DirectionEnum::Left), SpriteRef { id: 3 });
    assert_eq!(frames.frame(DirectionEnum::Right), SpriteRef { id: 4 });
}
