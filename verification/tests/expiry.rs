use undivey::components::{Expire, Transform};
use undivey::entity::Entity;
use undivey::systems::expire;
use undivey::world::World;

fn timed(time: u64) -> Entity {
    let mut e = Entity::empty();
    e.expire = Some(Expire { time });
    e.transform = Some(Transform::from_xy(1, 2));
    e
}

#[test]
fn sixteen_milliseconds_left_and_a_frame_as_long() {
    assert_eq!(timed(16_000).step_expiry(16_000), None);
    assert_eq!(timed(16_000).step_expiry(16_001), None);
    assert_eq!(timed(16_000).step_expiry(1_000_000), None);
}

#[test]
fn a_shorter_frame_comes_off_the_countdown() {
    let mut e = timed(16_000);
    let mut left: u64 = 16_000;
    for _ in 0..3 {
        e = e.step_expiry(5_000).unwrap();
        let now = e.expire.unwrap().time;
        assert!(now < left);
        left = now;
    }
    assert_eq!(left, 1_000);
    assert_eq!(e.step_expiry(5_000), None);
}

#[test]
fn the_countdown_is_exact() {
    assert_eq!(timed(16_000).step_expiry(15_999).unwrap().expire, Some(Expire { time: 1 }));
    assert_eq!(
        timed(5_000_000).step_expiry(16_000).unwrap().expire,
        Some(Expire { time: 4_984_000 })
    );
    assert_eq!(Expire { time: 10 }.age(3), Some(Expire { time: 7 }));
    assert_eq!(Expire { time: 10 }.age(10), None);
}

#[test]
fn a_frame_without_time_keeps_a_running_countdown() {
    assert_eq!(timed(16_000).step_expiry(0), Some(timed(16_000)));
}

#[test]
fn a_countdown_at_zero_ends_in_any_frame() {
    assert_eq!(timed(0).step_expiry(0), None);
    assert_eq!(timed(0).step_expiry(1), None);
}

#[test]
fn an_entity_without_countdown_stays() {
    let e = Entity::empty();
    assert_eq!(e.step_expiry(u64::MAX), Some(e));
}

#[test]
fn expiry_system_removes_and_ages() {
    let mut world = World::new();
    world.spawn(timed(10_000)).unwrap();
    world.spawn(Entity::empty()).unwrap();
    world.spawn(timed(20_000)).unwrap();
    world.spawn(timed(16_000)).unwrap();
    world.spawn(timed(16_001)).unwrap();
    expire(&mut world, 16_000);
    assert_eq!(world.len(), 3);
    assert_eq!(world.next_id(), 5);
    let ids: Vec<u64> = world.entities().iter().map(|e| e.id).collect();
    assert_eq!(ids, vec![1, 2, 4]);
    assert_eq!(world.get(0).unwrap().expire, None);
    assert_eq!(world.get(1).unwrap().expire, Some(Expire { time: 4_000 }));
    assert_eq!(world.get(2).unwrap().expire, Some(Expire { time: 1 }));
    assert_eq!(world.get(3), None);
}

#[test]
fn expiry_system_on_an_empty_world() {
    let mut world = World::new();
    expire(&mut world, 16_000);
    assert_eq!(world.len(), 0);
}

#[test]
fn identifiers_are_not_given_out_again() {
    let mut world = World::new();
    world.spawn(timed(1)).unwrap();
    expire(&mut world, 5);
    assert_eq!(world.len(), 0);
    assert_eq!(world.spawn(Entity::empty()), Ok(1));
    assert_eq!(world.get(0).unwrap().id, 1);
}
