use undivey::components::{
    Collider, Damage, Direction, DirectionEnum, Expire, Faction, FactionEnum, Heading, Health,
    Keys, Shooter, Speed, SpriteRef, Transform,
};
use undivey::entity::Entity;
use undivey::systems::{bullet_mover, controllable_shooting};
use undivey::world::{SimError, World};

fn gunner(x: i64, y: i64, facing: DirectionEnum) -> Entity {
    let mut e = Entity::empty();
    e.controllable = true;
    e.transform = Some(Transform::from_xy(x, y));
    e.direction = Some(Direction { direction: facing });
    e.shooter = Some(waiting(0));
    e
}

fn waiting(time_out: u64) -> Shooter {
    Shooter { bullet_sprite: SpriteRef { id: 9 }, time_out, max_time_out: 100_000 }
}

fn fire() -> Keys {
    Keys { left: false, right: false, up: false, down: false, fire: true, pause: false }
}

#[test]
fn a_bullet_fired_facing_right() {
    let (shooter, bullet) = gunner(10_000_000, 20_000_000, DirectionEnum::Right)
        .step_shooting(16_000, 42);
    let bullet = bullet.unwrap();
    assert_eq!(bullet.id, 42);
    assert!(bullet.bullet);
    let place = bullet.transform.unwrap();
    assert_eq!(place.x, 70_000_000);
    assert_eq!(place.y, 20_000_000);
    assert_eq!(place.heading, Heading { dx: 1, dy: 0 });
    assert_eq!(place.heading.degrees(), Some(-90));
    assert_eq!(bullet.speed, Some(Speed { speed: 500 }));
    assert_eq!(bullet.damage, Some(Damage { damage: 10 }));
    assert_eq!(bullet.expire, Some(Expire { time: 5_000_000 }));
    assert_eq!(bullet.direction, Some(Direction { direction: DirectionEnum::Right }));
    assert_eq!(bullet.faction, Some(Faction { faction: FactionEnum::Players }));
    assert_eq!(bullet.collider, Some(Collider::Bullet));
    assert_eq!(bullet.sprite, Some(SpriteRef { id: 9 }));
    assert!(!bullet.controllable && !bullet.player && !bullet.enemy && !bullet.scrolling);
    assert_eq!(bullet.health, None);
    assert_eq!(bullet.shooter, None);
    assert_eq!(bullet.ai, None);
    assert_eq!(bullet.frames, None);
    assert_eq!(shooter.transform, Some(Transform::from_xy(10_000_000, 20_000_000)));

    let mut flying = bullet;
    let mut last_x = place.x;
    for _ in 0..10 {
        flying = flying.step_bullet(16_000);
        let now = flying.transform.unwrap();
        assert!(now.x > last_x);
        assert_eq!(now.x - last_x, 8_000_000);
        assert_eq!(now.y, 20_000_000);
        last_x = now.x;
    }
    assert_eq!(last_x, 150_000_000);
}

#[test]
fn bullets_appear_in_front_of_the_shooter_whatever_it_faces() {
    let at = |d: DirectionEnum| {
        gunner(0, 0, d).step_shooting(16_000, 0).1.unwrap().transform.unwrap()
    };
    assert_eq!(
        at(DirectionEnum::Left),
        Transform { x: -60_000_000, y: 0, heading: Heading { dx: -1, dy: 0 } }
    );
    assert_eq!(
        at(DirectionEnum::Up),
        Transform { x: 0, y: 60_000_000, heading: Heading { dx: 0, dy: 1 } }
    );
    assert_eq!(
        at(DirectionEnum::Down),
        Transform { x: 0, y: -60_000_000, heading: Heading { dx: 0, dy: -1 } }
    );
    assert_eq!(at(DirectionEnum::Left).heading.degrees(), Some(90));
    assert_eq!(at(DirectionEnum::Up).heading.degrees(), Some(0));
    assert_eq!(at(DirectionEnum::Down).heading.degrees(), Some(180));
}

#[test]
fn headings_off_the_axes_have_no_quarter_turn() {
    assert_eq!(Heading { dx: 1, dy: 1 }.degrees(), None);
    assert_eq!(Heading { dx: 0, dy: 0 }.degrees(), None);
    assert_eq!(Heading { dx: 0, dy: 12 }.degrees(), Some(0));
    assert_eq!(Heading { dx: -7, dy: 0 }.degrees(), Some(90));
    assert_eq!(DirectionEnum::Right.heading().degrees(), Some(-90));
}

#[test]
fn a_bullet_at_the_edge_of_the_coordinate_range_stays_in_it() {
    let bullet = gunner(i64::MAX - 5, 0, DirectionEnum::Right).step_shooting(0, 0).1.unwrap();
    assert_eq!(bullet.transform.unwrap().x, i64::MAX);
    let moved = bullet.step_bullet(16_000);
    assert_eq!(moved.transform.unwrap().x, i64::MAX);
    let bullet = gunner(0, i64::MIN + 5, DirectionEnum::Down).step_shooting(0, 0).1.unwrap();
    assert_eq!(bullet.transform.unwrap().y, i64::MIN);
}

#[test]
fn firing_starts_the_wait_and_the_frame_comes_off_it() {
    let (after, bullet) = gunner(0, 0, DirectionEnum::Up).step_shooting(16_000, 0);
    assert!(bullet.is_some());
    assert_eq!(after.shooter.unwrap().time_out, 84_000);
    assert_eq!(after.shooter.unwrap().max_time_out, 100_000);
}

#[test]
fn no_shot_while_waiting() {
    let mut e = gunner(0, 0, DirectionEnum::Up);
    e.shooter = Some(waiting(84_000));
    assert!(!e.will_fire());
    let (after, bullet) = e.step_shooting(16_000, 0);
    assert_eq!(bullet, None);
    assert_eq!(after.shooter.unwrap().time_out, 68_000);
}

#[test]
fn the_wait_never_falls_below_zero() {
    let mut e = gunner(0, 0, DirectionEnum::Up);
    e.shooter = Some(waiting(4_000));
    let (after, bullet) = e.step_shooting(16_000, 0);
    assert_eq!(bullet, None);
    assert_eq!(after.shooter.unwrap().time_out, 0);
    assert!(after.will_fire());
}

#[test]
fn a_shooter_fires_every_seventh_frame_at_sixteen_milliseconds() {
    let mut e = gunner(0, 0, DirectionEnum::Up);
    let mut fired: Vec<usize> = Vec::new();
    for frame in 0..15 {
        let (after, bullet) = e.step_shooting(16_000, 0);
        if bullet.is_some() {
            fired.push(frame);
        }
        e = after;
    }
    assert_eq!(fired, vec![0, 7, 14]);
}

#[test]
fn a_long_frame_lets_the_shooter_fire_in_every_frame() {
    let mut e = gunner(0, 0, DirectionEnum::Up);
    for _ in 0..3 {
        let (after, bullet) = e.step_shooting(100_000, 0);
        assert!(bullet.is_some());
        assert_eq!(after.shooter.unwrap().time_out, 0);
        e = after;
    }
}

#[test]
fn shooting_needs_every_component_it_looks_at() {
    let mut e = gunner(0, 0, DirectionEnum::Up);
    e.controllable = false;
    assert_eq!(e.step_shooting(16_000, 0), (e, None));
    let mut e = gunner(0, 0, DirectionEnum::Up);
    e.direction = None;
    assert_eq!(e.step_shooting(16_000, 0), (e, None));
    let mut e = gunner(0, 0, DirectionEnum::Up);
    e.transform = None;
    assert_eq!(e.step_shooting(16_000, 0), (e, None));
    let mut e = gunner(0, 0, DirectionEnum::Up);
    e.shooter = None;
    assert_eq!(e.step_shooting(16_000, 0), (e, None));
}

#[test]
fn the_dead_still_shoot() {
    let mut e = gunner(0, 0, DirectionEnum::Up);
    e.health = Some(Health { hp: 0 });
    assert!(e.will_fire());
    assert!(e.step_shooting(16_000, 0).1.is_some());
}

#[test]
fn shooting_system_adds_the_bullets_in_the_order_of_the_shooters() {
    let mut world = World::new();
    world.spawn(gunner(0, 0, DirectionEnum::Left)).unwrap();
    let mut busy = gunner(5, 5, DirectionEnum::Up);
    busy.shooter = Some(waiting(50_000));
    world.spawn(busy).unwrap();
    world.spawn(gunner(7, 7, DirectionEnum::Down)).unwrap();
    assert_eq!(controllable_shooting(&mut world, fire(), 16_000), Ok(()));
    assert_eq!(world.len(), 5);
    assert_eq!(world.next_id(), 5);
    assert_eq!(world.get(0).unwrap().shooter.unwrap().time_out, 84_000);
    assert_eq!(world.get(1).unwrap().shooter.unwrap().time_out, 34_000);
    assert_eq!(world.get(2).unwrap().shooter.unwrap().time_out, 84_000);
    let first = world.get(3).unwrap();
    assert_eq!(first.id, 3);
    assert_eq!(first.transform.unwrap().x, -60_000_000);
    assert_eq!(first.direction, Some(Direction { direction: DirectionEnum::Left }));
    let second = world.get(4).unwrap();
    assert_eq!(second.id, 4);
    assert_eq!(
        second.transform,
        Some(Transform { x: 7, y: -59_999_993, heading: Heading { dx: 0, dy: -1 } })
    );
}

#[test]
fn shooting_system_rests_without_the_fire_key() {
    let mut world = World::new();
    world.spawn(gunner(0, 0, DirectionEnum::Left)).unwrap();
    let before = world.clone();
    assert_eq!(controllable_shooting(&mut world, Keys::none(), 16_000), Ok(()));
    assert_eq!(world, before);
}

#[test]
fn shooting_system_fails_without_identifiers() {
    let mut world = World::starting_at(u64::MAX - 2);
    world.spawn(gunner(0, 0, DirectionEnum::Left)).unwrap();
    world.spawn(gunner(0, 0, DirectionEnum::Right)).unwrap();
    assert_eq!(world.next_id(), u64::MAX);
    let before = world.clone();
    assert_eq!(controllable_shooting(&mut world, fire(), 16_000), Err(SimError::StoreExhausted));
    assert_eq!(world, before);
    assert_eq!(world.spawn(Entity::empty()), Err(SimError::StoreExhausted));
    assert_eq!(world, before);
}

#[test]
fn shooting_system_uses_the_last_identifier() {
    let mut world = World::starting_at(u64::MAX - 2);
    world.spawn(gunner(0, 0, DirectionEnum::Left)).unwrap();
    assert_eq!(controllable_shooting(&mut world, fire(), 16_000), Ok(()));
    assert_eq!(world.len(), 2);
    assert_eq!(world.get(1).unwrap().id, u64::MAX - 1);
    assert_eq!(world.next_id(), u64::MAX);
}

#[test]
fn bullet_system_moves_bullets_only() {
    let mut world = World::new();
    let bullet = gunner(0, 0, DirectionEnum::Down).step_shooting(0, 0).1.unwrap();
    world.spawn(bullet).unwrap();
    world.spawn(gunner(3, 3, DirectionEnum::Left)).unwrap();
    let mut slow = bullet;
    slow.speed = None;
    world.spawn(slow).unwrap();
    bullet_mover(&mut world, 10_000);
    assert_eq!(world.get(0).unwrap().transform.unwrap().y, -65_000_000);
    assert_eq!(world.get(0).unwrap().transform.unwrap().x, 0);
    assert_eq!(world.get(1).unwrap().transform, Some(Transform::from_xy(3, 3)));
    assert_eq!(world.get(2).unwrap().transform.unwrap().y, -60_000_000);
    assert_eq!(world.get(2).unwrap().id, 2);
}

#[test]
fn bullets_fly_along_each_axis() {
    let fly = |d: DirectionEnum| {
        gunner(0, 0, d).step_shooting(0, 0).1.unwrap().step_bullet(1_000_000).transform.unwrap()
    };
    assert_eq!((fly(DirectionEnum::Up).x, fly(DirectionEnum::Up).y), (0, 560_000_000));
    assert_eq!((fly(DirectionEnum::Down).x, fly(DirectionEnum::Down).y), (0, -560_000_000));
    assert_eq!((fly(DirectionEnum::Left).x, fly(DirectionEnum::Left).y), (-560_000_000, 0));
    assert_eq!((fly(DirectionEnum::Right).x, fly(DirectionEnum::Right).y), (560_000_000, 0));
}
