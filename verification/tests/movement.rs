use undivey::components::{
    Direction, DirectionEnum, Heading, Health, Keys, Speed, SpriteFrames, SpriteRef, Transform,
};
use undivey::entity::Entity;
use undivey::rules::{BAND_ABOVE, BAND_BELOW, X_LIMIT};
use undivey::systems::movement;
use undivey::world::{Role, SimError, World};

fn frames() -> SpriteFrames {
    SpriteFrames {
        up: SpriteRef { id: 1 },
        down: SpriteRef { id: 2 },
        left: SpriteRef { id: 3 },
        right: SpriteRef { id: 4 },
        dead: SpriteRef { id: 5 },
    }
}

fn walker(x: i64, y: i64) -> Entity {
    let mut e = Entity::empty();
    e.controllable = true;
    e.transform = Some(Transform::from_xy(x, y));
    e.speed = Some(Speed { speed: 300 });
    e.direction = Some(Direction { direction: DirectionEnum::Up });
    e.frames = Some(frames());
    e.sprite = Some(SpriteRef { id: 1 });
    e
}

fn keys(left: bool, right: bool, up: bool, down: bool) -> Keys {
    Keys { left, right, up, down, fire: false, pause: false }
}

fn camera_at(y: i64) -> Entity {
    let mut e = Entity::empty();
    e.scrolling = true;
    e.transform = Some(Transform::from_xy(0, y));
    e
}

#[test]
fn up_then_down_in_one_frame_faces_down() {
    let e = walker(0, 0).step_movement(keys(false, false, true, true), 16_000, 0);
    assert_eq!(e.direction, Some(Direction { direction: DirectionEnum::Down }));
    assert_eq!(e.sprite, Some(SpriteRef { id: 2 }));
}

#[test]
fn the_last_key_in_the_order_left_right_up_down_wins() {
    assert_eq!(keys(true, false, false, false).last_direction(), Some(DirectionEnum::Left));
    assert_eq!(keys(true, true, false, false).last_direction(), Some(DirectionEnum::Right));
    assert_eq!(keys(true, true, true, false).last_direction(), Some(DirectionEnum::Up));
    assert_eq!(keys(true, true, true, true).last_direction(), Some(DirectionEnum::Down));
    assert_eq!(keys(true, false, false, true).last_direction(), Some(DirectionEnum::Down));
    assert_eq!(keys(false, false, false, false).last_direction(), None);
    assert_eq!(Keys::none().last_direction(), None);
}

#[test]
fn no_key_keeps_facing_and_sprite() {
    let mut start = walker(0, 0);
    start.direction = Some(Direction { direction: DirectionEnum::Left });
    start.sprite = Some(SpriteRef { id: 3 });
    let e = start.step_movement(Keys::none(), 16_000, 0);
    assert_eq!(e.direction, Some(Direction { direction: DirectionEnum::Left }));
    assert_eq!(e.sprite, Some(SpriteRef { id: 3 }));
    assert_eq!(e.transform, Some(Transform::from_xy(0, 0)));
}

#[test]
fn a_key_along_one_axis_moves_the_full_distance() {
    let e = walker(0, 0).step_movement(keys(false, true, false, false), 16_000, 0);
    assert_eq!(e.transform, Some(Transform::from_xy(4_800_000, 0)));
    assert_eq!(e.sprite, Some(SpriteRef { id: 4 }));
    let e = walker(0, 0).step_movement(keys(true, false, false, false), 16_000, 0);
    assert_eq!(e.transform, Some(Transform::from_xy(-4_800_000, 0)));
    let e = walker(0, 0).step_movement(keys(false, false, true, false), 16_000, 0);
    assert_eq!(e.transform, Some(Transform::from_xy(0, 4_800_000)));
    let e = walker(0, 0).step_movement(keys(false, false, false, true), 16_000, 0);
    assert_eq!(e.transform, Some(Transform::from_xy(0, -4_800_000)));
}

#[test]
fn a_diagonal_move_gives_each_axis_the_diagonal_share() {
    let e = walker(0, 0).step_movement(keys(false, true, true, false), 16_000, 0);
    assert_eq!(e.transform, Some(Transform::from_xy(3_394_112, 3_394_112)));
    let e = walker(0, 0).step_movement(keys(true, false, false, true), 16_000, 0);
    assert_eq!(e.transform, Some(Transform::from_xy(-3_394_112, -3_394_112)));
}

#[test]
fn opposite_keys_cancel() {
    let e = walker(10, 20).step_movement(keys(true, true, false, false), 16_000, 0);
    assert_eq!(e.transform, Some(Transform::from_xy(10, 20)));
    assert_eq!(e.direction, Some(Direction { direction: DirectionEnum::Right }));
    let e = walker(10, 20).step_movement(keys(true, true, true, false), 16_000, 0);
    assert_eq!(e.transform, Some(Transform::from_xy(10, 4_800_020)));
}

#[test]
fn horizontal_position_stays_within_the_width() {
    let right = keys(false, true, false, false);
    let left = keys(true, false, false, false);
    let mut e = walker(0, 0);
    for _ in 0..200 {
        e = e.step_movement(right, 16_000, 0);
        let x = e.transform.unwrap().x;
        assert!(-X_LIMIT <= x && x <= X_LIMIT);
    }
    assert_eq!(e.transform.unwrap().x, 276_000_000);
    for _ in 0..400 {
        e = e.step_movement(left, 16_000, 0);
        let x = e.transform.unwrap().x;
        assert!(-X_LIMIT <= x && x <= X_LIMIT);
    }
    assert_eq!(e.transform.unwrap().x, -276_000_000);
}

#[test]
fn a_move_brings_a_stray_entity_back_into_the_width() {
    let e = walker(900_000_000, 0).step_movement(keys(false, false, true, false), 16_000, 0);
    assert_eq!(e.transform.unwrap().x, 276_000_000);
    let e = walker(900_000_000, 0).step_movement(Keys::none(), 16_000, 0);
    assert_eq!(e.transform.unwrap().x, 900_000_000);
}

#[test]
fn vertical_position_stays_within_the_band_of_the_camera() {
    let camera_y: i64 = 50_000_000;
    let mut e = walker(0, 0);
    for _ in 0..200 {
        e = e.step_movement(keys(false, false, true, false), 16_000, camera_y);
        let y = e.transform.unwrap().y;
        assert!(camera_y - BAND_BELOW <= y && y <= camera_y + BAND_ABOVE);
    }
    assert_eq!(e.transform.unwrap().y, 250_000_000);
    for _ in 0..400 {
        e = e.step_movement(keys(false, false, false, true), 16_000, camera_y);
        let y = e.transform.unwrap().y;
        assert!(camera_y - BAND_BELOW <= y && y <= camera_y + BAND_ABOVE);
    }
    assert_eq!(e.transform.unwrap().y, -226_000_000);
}

#[test]
fn the_band_holds_an_entity_that_does_not_move() {
    let e = walker(0, 0).step_movement(Keys::none(), 16_000, 1_000_000_000);
    assert_eq!(e.transform.unwrap().y, 724_000_000);
    let e = walker(0, 0).step_movement(Keys::none(), 16_000, -1_000_000_000);
    assert_eq!(e.transform.unwrap().y, -800_000_000);
}

#[test]
fn the_band_at_the_edges_of_the_coordinate_range() {
    let e = walker(0, 0).step_movement(Keys::none(), 16_000, i64::MAX);
    assert_eq!(e.transform.unwrap().y, i64::MAX - 276_000_000);
    let e = walker(0, 0).step_movement(Keys::none(), 16_000, i64::MIN);
    assert_eq!(e.transform.unwrap().y, i64::MIN + 200_000_000);
    let e = walker(0, i64::MIN).step_movement(keys(false, false, false, true), 16_000, i64::MIN);
    assert_eq!(e.transform.unwrap().y, i64::MIN);
}

#[test]
fn a_dead_entity_does_not_move_or_turn() {
    let mut start = walker(5, 5);
    start.health = Some(Health { hp: 0 });
    let e = start.step_movement(keys(false, true, false, true), 16_000, 1_000_000_000);
    assert_eq!(e, start);
    start.health = Some(Health { hp: -3 });
    let e = start.step_movement(keys(false, true, false, true), 16_000, 0);
    assert_eq!(e, start);
}

#[test]
fn a_living_entity_with_health_moves() {
    let mut start = walker(0, 0);
    start.health = Some(Health { hp: 1 });
    let e = start.step_movement(keys(false, true, false, false), 16_000, 0);
    assert_eq!(e.transform, Some(Transform::from_xy(4_800_000, 0)));
}

#[test]
fn movement_needs_every_component_it_looks_at() {
    let k = keys(false, true, false, false);
    let mut e = walker(0, 0);
    e.controllable = false;
    assert_eq!(e.step_movement(k, 16_000, 0), e);
    let mut e = walker(0, 0);
    e.speed = None;
    assert_eq!(e.step_movement(k, 16_000, 0), e);
    let mut e = walker(0, 0);
    e.direction = None;
    assert_eq!(e.step_movement(k, 16_000, 0), e);
    let mut e = walker(0, 0);
    e.transform = None;
    assert_eq!(e.step_movement(k, 16_000, 0), e);
}

#[test]
fn movement_without_frames_keeps_the_sprite() {
    let mut start = walker(0, 0);
    start.frames = None;
    start.sprite = Some(SpriteRef { id: 77 });
    let e = start.step_movement(keys(true, false, false, false), 16_000, 0);
    assert_eq!(e.sprite, Some(SpriteRef { id: 77 }));
    assert_eq!(e.direction, Some(Direction { direction: DirectionEnum::Left }));
}

#[test]
fn movement_keeps_the_heading() {
    let mut start = walker(0, 0);
    start.transform = Some(Transform { x: 0, y: 0, heading: Heading { dx: 3, dy: -4 } });
    let e = start.step_movement(keys(true, false, false, false), 16_000, 0);
    assert_eq!(e.transform.unwrap().heading, Heading { dx: 3, dy: -4 });
}

#[test]
fn movement_system_moves_under_the_camera() {
    let mut world = World::new();
    world.spawn(camera_at(1_000_000_000)).unwrap();
    world.spawn(walker(0, 0)).unwrap();
    world.spawn(walker(500_000_000, 900_000_000)).unwrap();
    assert_eq!(movement(&mut world, keys(false, true, false, false), 16_000), Ok(()));
    assert_eq!(world.len(), 3);
    assert_eq!(world.get(0).unwrap().transform, Some(Transform::from_xy(0, 1_000_000_000)));
    assert_eq!(
        world.get(1).unwrap().transform,
        Some(Transform::from_xy(4_800_000, 724_000_000))
    );
    assert_eq!(
        world.get(2).unwrap().transform,
        Some(Transform::from_xy(276_000_000, 900_000_000))
    );
    assert_eq!(world.get(1).unwrap().id, 1);
}

#[test]
fn movement_system_fails_without_a_camera() {
    let mut world = World::new();
    world.spawn(walker(0, 0)).unwrap();
    let before = world.get(0);
    assert_eq!(
        movement(&mut world, keys(false, true, false, false), 16_000),
        Err(SimError::Missing(Role::Camera))
    );
    assert_eq!(world.get(0), before);
}

#[test]
fn movement_system_fails_with_two_cameras() {
    let mut world = World::new();
    world.spawn(camera_at(0)).unwrap();
    world.spawn(walker(0, 0)).unwrap();
    world.spawn(camera_at(7)).unwrap();
    let before = world.get(1);
    assert_eq!(
        movement(&mut world, keys(false, true, false, false), 16_000),
        Err(SimError::Ambiguous(Role::Camera))
    );
    assert_eq!(world.get(1), before);
}

#[test]
fn a_scrolling_entity_without_a_place_is_no_camera() {
    let mut world = World::new();
    let mut blind = Entity::empty();
    blind.scrolling = true;
    world.spawn(blind).unwrap();
    assert_eq!(world.single(Role::Camera), Err(SimError::Missing(Role::Camera)));
    world.spawn(camera_at(3)).unwrap();
    assert_eq!(world.single(Role::Camera), Ok(1));
}
