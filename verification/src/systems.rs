//! The systems of the game loop, each over the whole world, and the frame
//! that runs them in their order.

use vstd::prelude::*;
use crate::components::Keys;
use crate::entity::Entity;
use crate::world::{ascending, same_ids, single, Role, Scene, SimError, World};

verus! {

/// What is left of `s` after the expiry system, in the same order: the
/// entities whose countdown ran out are gone, the others have aged.
pub open spec fn survivors(s: Seq<Entity>, dt: u64) -> Seq<Entity>
    decreases s.len(),
{
    if s.len() == 0 {
        Seq::empty()
    } else {
        let front = survivors(s.drop_last(), dt);
        match s.last().aged(dt) {
            Some(e) => front.push(e),
            None => front,
        }
    }
}

/// The bullets that the entities of `s` fire when the fire key is held, in
/// the order of their shooters, under identifiers counted up from `first`.
pub open spec fn volley(s: Seq<Entity>, first: int) -> Seq<Entity>
    decreases s.len(),
{
    if s.len() == 0 {
        Seq::empty()
    } else {
        let front = volley(s.drop_last(), first);
        if s.last().fires() {
            front.push(s.last().bullet_of((first + front.len()) as u64))
        } else {
            front
        }
    }
}

impl Scene {
    /// The scene after the movement system: every entity is moved under the
    /// camera's height as it was before the system ran. Without a single
    /// camera the system fails.
    pub open spec fn after_movement(self, keys: Keys, dt: u64) -> Result<Scene, SimError> {
        match single(self.entities, Role::Camera) {
            Err(e) => Err(e),
            Ok(_) => Ok(
                Scene {
                    entities: self.entities.map_values(
                        |e: Entity| e.moved(keys, dt, self.the(Role::Camera).y),
                    ),
                    next_id: self.next_id,
                },
            ),
        }
    }

    /// The bullets that the shooting system asks for.
    pub open spec fn shots(self, keys: Keys) -> Seq<Entity> {
        if keys.fire {
            volley(self.entities, self.next_id as int)
        } else {
            Seq::empty()
        }
    }

    /// The scene after the shooting system has looked at every shooter, and
    /// before the bullets it asks for are added: with the fire key held, the
    /// waits are updated and the bullets' identifiers are taken. The system
    /// fails where the identifiers do not suffice.
    pub open spec fn after_trigger(self, keys: Keys, dt: u64) -> Result<Scene, SimError> {
        if !keys.fire {
            Ok(self)
        } else if self.next_id + self.shots(keys).len() > u64::MAX {
            Err(SimError::StoreExhausted)
        } else {
            Ok(
                Scene {
                    entities: self.entities.map_values(|e: Entity| e.cooled(dt)),
                    next_id: (self.next_id + self.shots(keys).len()) as u64,
                },
            )
        }
    }

    /// The scene after the shooting system, with the bullets added.
    pub open spec fn after_shooting(self, keys: Keys, dt: u64) -> Result<Scene, SimError> {
        match self.after_trigger(keys, dt) {
            Err(e) => Err(e),
            Ok(scene) => Ok(scene.admitting(self.shots(keys))),
        }
    }

    /// The scene after the bullet system.
    pub open spec fn after_bullets(self, dt: u64) -> Scene {
        Scene {
            entities: self.entities.map_values(|e: Entity| e.flown(dt)),
            next_id: self.next_id,
        }
    }

    /// The scene after the expiry system.
    pub open spec fn after_expiry(self, dt: u64) -> Scene {
        Scene { entities: survivors(self.entities, dt), next_id: self.next_id }
    }

    /// The scene after the chase system: every entity has chased the player
    /// where the player stood before the system ran. Without a single player
    /// the system fails.
    pub open spec fn after_chase(self, dt: u64) -> Result<Scene, SimError> {
        match single(self.entities, Role::Player) {
            Err(e) => Err(e),
            Ok(_) => Ok(
                Scene {
                    entities: self.entities.map_values(
                        |e: Entity|
                            e.chased(self.the(Role::Player).x, self.the(Role::Player).y, dt),
                    ),
                    next_id: self.next_id,
                },
            ),
        }
    }

    /// The scene after the scroll system: the camera has climbed. Without a
    /// single camera the system fails.
    pub open spec fn after_scroll(self, dt: u64) -> Result<Scene, SimError> {
        match single(self.entities, Role::Camera) {
            Err(e) => Err(e),
            Ok(i) => Ok(
                Scene {
                    entities: self.entities.update(i, self.entities[i].scrolled(dt)),
                    next_id: self.next_id,
                },
            ),
        }
    }

    /// The scene after one frame of the game loop, and how the frame ended.
    /// The systems run in the order movement, shooting, bullets, expiry,
    /// chase, scroll. A system that fails ends the frame: the systems before
    /// it have done their work, those after it are left out. The bullets
    /// that the shooting system asked for join the scene when the frame
    /// ends, so that no bullet moves or ages in the frame that fired it.
    pub open spec fn after_tick(self, keys: Keys, dt: u64) -> (Scene, Result<(), SimError>) {
        match self.after_movement(keys, dt) {
            Err(e) => (self, Err(e)),
            Ok(moved) => match moved.after_trigger(keys, dt) {
                Err(e) => (moved, Err(e)),
                Ok(cooled) => {
                    let shots = moved.shots(keys);
                    let aged = cooled.after_bullets(dt).after_expiry(dt);
                    match aged.after_chase(dt) {
                        Err(e) => (aged.admitting(shots), Err(e)),
                        Ok(chased) => match chased.after_scroll(dt) {
                            Err(e) => (chased.admitting(shots), Err(e)),
                            Ok(scrolled) => (scrolled.admitting(shots), Ok(())),
                        },
                    }
                },
            },
        }
    }
}

/// Steers the controlled entities by the keys held: each living one turns to
/// the last key, moves, and is held within the playing width and within the
/// band around the camera. Fails before any change where the world has not
/// exactly one camera.
pub fn movement(world: &mut World, keys: Keys, dt: u64) -> (r: Result<(), SimError>)
    requires
        old(world).wf(),
    ensures
        final(world).wf(),
        same_ids(old(world)@.entities, final(world)@.entities),
        match old(world)@.after_movement(keys, dt) {
            Ok(scene) => r == Ok::<(), SimError>(()) && final(world)@ == scene,
            Err(e) => r == Err::<(), SimError>(e) && final(world)@ == old(world)@,
        },
        r.is_ok() ==> forall|i: int|
            0 <= i < old(world)@.entities.len() && (#[trigger] old(world)@.entities[i]).steerable()
                && !old(world)@.entities[i].dead()
                ==> final(world)@.entities[i].transform.unwrap().in_band(
                old(world)@.the(Role::Camera).y,
            ),
        r.is_ok() ==> forall|i: int|
            0 <= i < old(world)@.entities.len() && (#[trigger] old(world)@.entities[i]).steerable()
                && old(world)@.entities[i].transform.unwrap().in_width()
                ==> final(world)@.entities[i].transform.unwrap().in_width(),
{
    let camera: usize = match world.single(Role::Camera) {
        Ok(i) => i,
        Err(e) => {
            return Err(e);
        },
    };
    let camera_y: i64 = match world.entities[camera].transform {
        Some(t) => t.y,
        None => 0,
    };
    let n: usize = world.entities.len();
    let mut i: usize = 0;
    while i < n
        invariant
            0 <= i <= n,
            n == old(world)@.entities.len(),
            world.entities@.len() == n,
            world.next_id == old(world).next_id,
            camera_y == old(world)@.the(Role::Camera).y,
            forall|j: int|
                0 <= j < i ==> #[trigger] world.entities@[j] == old(world)@.entities[j].moved(
                    keys,
                    dt,
                    camera_y,
                ),
            forall|j: int| i <= j < n ==> #[trigger] world.entities@[j] == old(world)@.entities[j],
        decreases n - i,
    {
        let e: Entity = world.entities[i];
        world.entities.set(i, e.step_movement(keys, dt, camera_y));
        i += 1;
    }
    proof {
        let scene = old(world)@.after_movement(keys, dt).unwrap();
        assert(world@.entities =~= scene.entities);
        assert(world@ == scene);
        lemma_same_ids(old(world)@.entities, world@.entities, world@.next_id as int);
    }
    Ok(())
}

/// The shooting system up to the point where the bullets are known: with the
/// fire key held, updates the wait of every shooter, takes an identifier for
/// each bullet, and returns the bullets.
fn pull_triggers(world: &mut World, keys: Keys, dt: u64) -> (r: Result<Vec<Entity>, SimError>)
    requires
        old(world).wf(),
    ensures
        final(world).wf(),
        same_ids(old(world)@.entities, final(world)@.entities),
        match old(world)@.after_trigger(keys, dt) {
            Ok(scene) => r.is_ok() && final(world)@ == scene && r.unwrap()@ == old(world)@.shots(
                keys,
            ),
            Err(e) => r == Err::<Vec<Entity>, SimError>(e) && final(world)@ == old(world)@,
        },
{
    let mut bullets: Vec<Entity> = Vec::new();
    if !keys.fire {
        return Ok(bullets);
    }
    let n: usize = world.entities.len();
    let first: u64 = world.next_id;
    let mut shots: usize = 0;
    let mut i: usize = 0;
    while i < n
        invariant
            0 <= i <= n,
            n == world.entities@.len(),
            shots <= i,
            shots == volley(world.entities@.take(i as int), first as int).len(),
        decreases n - i,
    {
        proof {
            assert(world.entities@.take(i as int + 1).drop_last() =~= world.entities@.take(
                i as int,
            ));
        }
        if world.entities[i].will_fire() {
            shots += 1;
        }
        i += 1;
    }
    proof {
        assert(world.entities@.take(n as int) =~= world.entities@);
    }
    if shots as u64 > u64::MAX - first {
        return Err(SimError::StoreExhausted);
    }
    i = 0;
    while i < n
        invariant
            0 <= i <= n,
            n == old(world)@.entities.len(),
            world.entities@.len() == n,
            world.next_id == old(world).next_id,
            first == old(world).next_id,
            first + volley(old(world)@.entities, first as int).len() <= u64::MAX,
            bullets@ == volley(old(world)@.entities.take(i as int), first as int),
            forall|j: int|
                0 <= j < i ==> #[trigger] world.entities@[j] == old(world)@.entities[j].cooled(dt),
            forall|j: int| i <= j < n ==> #[trigger] world.entities@[j] == old(world)@.entities[j],
        decreases n - i,
    {
        proof {
            assert(old(world)@.entities.take(i as int + 1).drop_last() =~= old(
                world,
            )@.entities.take(i as int));
            lemma_volley_prefix(old(world)@.entities, first as int, i as int);
            lemma_volley_prefix(old(world)@.entities, first as int, i as int + 1);
        }
        let e: Entity = world.entities[i];
        let id: u64 = first + bullets.len() as u64;
        let (cooled, bullet) = e.step_shooting(dt, id);
        world.entities.set(i, cooled);
        match bullet {
            Some(b) => {
                bullets.push(b);
            },
            None => {},
        }
        i += 1;
    }
    proof {
        assert(old(world)@.entities.take(n as int) =~= old(world)@.entities);
    }
    world.next_id = first + shots as u64;
    proof {
        let scene = old(world)@.after_trigger(keys, dt).unwrap();
        assert(world@.entities =~= scene.entities);
        assert(world@ == scene);
        lemma_same_ids(old(world)@.entities, world@.entities, world@.next_id as int);
    }
    Ok(bullets)
}

/// With the fire key held, lets every controlled shooter fire whose wait is
/// over: its bullet joins the world in front of it, and its wait starts
/// anew. The frame's time then comes off every shooter's wait. Without the
/// fire key nothing changes. Fails before any change where the world has too
/// few identifiers left for the bullets.
pub fn controllable_shooting(world: &mut World, keys: Keys, dt: u64) -> (r: Result<(), SimError>)
    requires
        old(world).wf(),
    ensures
        final(world).wf(),
        match old(world)@.after_shooting(keys, dt) {
            Ok(scene) => r == Ok::<(), SimError>(()) && final(world)@ == scene,
            Err(e) => r == Err::<(), SimError>(e) && final(world)@ == old(world)@,
        },
{
    let mut bullets: Vec<Entity> = match pull_triggers(world, keys, dt) {
        Ok(b) => b,
        Err(e) => {
            return Err(e);
        },
    };
    proof {
        if keys.fire {
            lemma_volley_ids(old(world)@.entities, old(world)@.next_id as int);
        }
        lemma_same_ids(old(world)@.entities, world@.entities, old(world)@.next_id as int);
        lemma_admitting(
            world@,
            old(world)@.shots(keys),
            old(world)@.next_id as int,
        );
    }
    world.entities.append(&mut bullets);
    Ok(())
}

/// Advances every bullet along the axis of the direction it faces.
pub fn bullet_mover(world: &mut World, dt: u64)
    requires
        old(world).wf(),
    ensures
        final(world).wf(),
        same_ids(old(world)@.entities, final(world)@.entities),
        final(world)@ == old(world)@.after_bullets(dt),
{
    let n: usize = world.entities.len();
    let mut i: usize = 0;
    while i < n
        invariant
            0 <= i <= n,
            n == old(world)@.entities.len(),
            world.entities@.len() == n,
            world.next_id == old(world).next_id,
            forall|j: int|
                0 <= j < i ==> #[trigger] world.entities@[j] == old(world)@.entities[j].flown(dt),
            forall|j: int| i <= j < n ==> #[trigger] world.entities@[j] == old(world)@.entities[j],
        decreases n - i,
    {
        let e: Entity = world.entities[i];
        world.entities.set(i, e.step_bullet(dt));
        i += 1;
    }
    proof {
        assert(world@.entities =~= old(world)@.after_bullets(dt).entities);
        lemma_same_ids(old(world)@.entities, world@.entities, world@.next_id as int);
    }
}

/// Removes every entity whose countdown runs out in this frame, which is
/// when the frame lasts at least as long as the countdown has left, and
/// takes the frame's time off the other countdowns.
pub fn expire(world: &mut World, dt: u64)
    requires
        old(world).wf(),
    ensures
        final(world).wf(),
        final(world)@ == old(world)@.after_expiry(dt),
{
    let n: usize = world.entities.len();
    let mut kept: Vec<Entity> = Vec::new();
    let mut i: usize = 0;
    while i < n
        invariant
            0 <= i <= n,
            n == world.entities@.len(),
            kept@ == survivors(world.entities@.take(i as int), dt),
        decreases n - i,
    {
        proof {
            assert(world.entities@.take(i as int + 1).drop_last() =~= world.entities@.take(
                i as int,
            ));
        }
        match world.entities[i].step_expiry(dt) {
            Some(e) => {
                kept.push(e);
            },
            None => {},
        }
        i += 1;
    }
    proof {
        assert(world.entities@.take(n as int) =~= world.entities@);
        lemma_survivors_ids(world.entities@, dt, world.next_id as int);
    }
    world.entities = kept;
}

/// Turns every living chaser to the player and lets it drift upward; dead
/// chasers and other entities stay as they are. Fails before any change
/// where the world has not exactly one player.
pub fn chaser_ai(world: &mut World, dt: u64) -> (r: Result<(), SimError>)
    requires
        old(world).wf(),
    ensures
        final(world).wf(),
        same_ids(old(world)@.entities, final(world)@.entities),
        match old(world)@.after_chase(dt) {
            Ok(scene) => r == Ok::<(), SimError>(()) && final(world)@ == scene,
            Err(e) => r == Err::<(), SimError>(e) && final(world)@ == old(world)@,
        },
        forall|i: int|
            0 <= i < old(world)@.entities.len() && (#[trigger] old(world)@.entities[i]).dead()
                ==> final(world)@.entities[i] == old(world)@.entities[i],
{
    let player: usize = match world.single(Role::Player) {
        Ok(i) => i,
        Err(e) => {
            return Err(e);
        },
    };
    let (px, py): (i64, i64) = match world.entities[player].transform {
        Some(t) => (t.x, t.y),
        None => (0, 0),
    };
    let n: usize = world.entities.len();
    let mut i: usize = 0;
    while i < n
        invariant
            0 <= i <= n,
            n == old(world)@.entities.len(),
            world.entities@.len() == n,
            world.next_id == old(world).next_id,
            px == old(world)@.the(Role::Player).x,
            py == old(world)@.the(Role::Player).y,
            forall|j: int|
                0 <= j < i ==> #[trigger] world.entities@[j] == old(world)@.entities[j].chased(
                    px,
                    py,
                    dt,
                ),
            forall|j: int| i <= j < n ==> #[trigger] world.entities@[j] == old(world)@.entities[j],
        decreases n - i,
    {
        let e: Entity = world.entities[i];
        world.entities.set(i, e.step_chase(px, py, dt));
        i += 1;
    }
    proof {
        let scene = old(world)@.after_chase(dt).unwrap();
        assert(world@.entities =~= scene.entities);
        assert(world@ == scene);
        lemma_same_ids(old(world)@.entities, world@.entities, world@.next_id as int);
    }
    Ok(())
}

/// Lets the camera climb at its fixed rate. Fails before any change where
/// the world has not exactly one camera.
pub fn scroll_camera(world: &mut World, dt: u64) -> (r: Result<(), SimError>)
    requires
        old(world).wf(),
    ensures
        final(world).wf(),
        same_ids(old(world)@.entities, final(world)@.entities),
        match old(world)@.after_scroll(dt) {
            Ok(scene) => r == Ok::<(), SimError>(()) && final(world)@ == scene,
            Err(e) => r == Err::<(), SimError>(e) && final(world)@ == old(world)@,
        },
{
    let camera: usize = match world.single(Role::Camera) {
        Ok(i) => i,
        Err(e) => {
            return Err(e);
        },
    };
    let e: Entity = world.entities[camera];
    world.entities.set(camera, e.step_scroll(dt));
    proof {
        let scene = old(world)@.after_scroll(dt).unwrap();
        assert(world@.entities =~= scene.entities);
        assert(world@ == scene);
        lemma_same_ids(old(world)@.entities, world@.entities, world@.next_id as int);
    }
    Ok(())
}

/// One frame of the game loop: movement, shooting, bullets, expiry, chase
/// and scroll, in this order. A system that fails ends the frame, and its
/// error is returned; what the systems before it did stays. The bullets
/// fired in the frame join the world when the frame ends.
pub fn tick(world: &mut World, keys: Keys, dt: u64) -> (r: Result<(), SimError>)
    requires
        old(world).wf(),
    ensures
        final(world).wf(),
        final(world)@ == old(world)@.after_tick(keys, dt).0,
        r == old(world)@.after_tick(keys, dt).1,
{
    match movement(world, keys, dt) {
        Ok(()) => {},
        Err(e) => {
            return Err(e);
        },
    }
    let ghost moved = world@;
    let mut bullets: Vec<Entity> = match pull_triggers(world, keys, dt) {
        Ok(b) => b,
        Err(e) => {
            return Err(e);
        },
    };
    let ghost first = moved.next_id as int;
    let ghost cooled = world@;
    proof {
        if keys.fire {
            lemma_volley_ids(moved.entities, first);
        }
        lemma_same_ids(moved.entities, cooled.entities, first);
    }
    bullet_mover(world, dt);
    proof {
        lemma_same_ids(cooled.entities, world@.entities, first);
        lemma_survivors_ids(world@.entities, dt, first);
    }
    expire(world, dt);
    let ghost aged = world@;
    let r = match chaser_ai(world, dt) {
        Ok(()) => {
            proof {
                lemma_same_ids(aged.entities, world@.entities, first);
            }
            let ghost chased = world@;
            let scrolled = scroll_camera(world, dt);
            proof {
                lemma_same_ids(chased.entities, world@.entities, first);
            }
            scrolled
        },
        Err(e) => Err(e),
    };
    proof {
        lemma_admitting(world@, moved.shots(keys), first);
    }
    world.entities.append(&mut bullets);
    r
}

/// Entities that keep their identifiers keep their order.
pub proof fn lemma_same_ids(before: Seq<Entity>, after: Seq<Entity>, bound: int)
    requires
        ascending(before, bound),
        same_ids(before, after),
    ensures
        ascending(after, bound),
{
    assert forall|i: int, j: int| 0 <= i < j < after.len() implies (#[trigger] after[i]).id < (
    #[trigger] after[j]).id by {
        assert(before[i].id < before[j].id);
    }
    assert forall|i: int| 0 <= i < after.len() implies (#[trigger] after[i]).id < bound by {
        assert(before[i].id < bound);
    }
}

/// The bullets of a volley carry the identifiers from `first` on, one after
/// the other.
pub proof fn lemma_volley_ids(s: Seq<Entity>, first: int)
    requires
        0 <= first,
        first + volley(s, first).len() <= u64::MAX,
    ensures
        forall|k: int|
            0 <= k < volley(s, first).len() ==> (#[trigger] volley(s, first)[k]).id == first + k,
    decreases s.len(),
{
    if s.len() > 0 {
        lemma_volley_ids(s.drop_last(), first);
    }
}

/// A part of the shooters fires no more bullets than all of them.
pub proof fn lemma_volley_prefix(s: Seq<Entity>, first: int, i: int)
    requires
        0 <= i <= s.len(),
    ensures
        volley(s.take(i), first).len() <= volley(s, first).len(),
    decreases s.len(),
{
    if i == s.len() {
        assert(s.take(i) =~= s);
    } else {
        assert(s.drop_last().take(i) =~= s.take(i));
        lemma_volley_prefix(s.drop_last(), first, i);
    }
}

/// What is left after the expiry system keeps the order of the
/// identifiers.
pub proof fn lemma_survivors_ids(s: Seq<Entity>, dt: u64, bound: int)
    requires
        ascending(s, bound),
    ensures
        ascending(survivors(s, dt), bound),
    decreases s.len(),
{
    if s.len() > 0 {
        let front = s.drop_last();
        assert forall|i: int| 0 <= i < front.len() implies front[i] == s[i] by {}
        assert(ascending(front, s.last().id as int)) by {
            assert forall|i: int| 0 <= i < front.len() implies (#[trigger] front[i]).id
                < s.last().id by {
                assert(s[i].id < s[s.len() - 1].id);
            }
            assert forall|i: int, j: int| 0 <= i < j < front.len() implies (#[trigger] front[i]).id
                < (#[trigger] front[j]).id by {
                assert(s[i].id < s[j].id);
            }
        }
        assert(ascending(front, bound)) by {
            assert forall|i: int| 0 <= i < front.len() implies (#[trigger] front[i]).id
                < bound by {
                assert(s[i].id < bound);
            }
        }
        lemma_survivors_ids(front, dt, s.last().id as int);
        lemma_survivors_ids(front, dt, bound);
        assert(s.last().id < bound);
    }
}

/// Bullets with the identifiers from `first` on may join entities whose
/// identifiers lie below `first`.
pub proof fn lemma_admitting(scene: Scene, batch: Seq<Entity>, first: int)
    requires
        ascending(scene.entities, first),
        forall|k: int| 0 <= k < batch.len() ==> (#[trigger] batch[k]).id == first + k,
        first + batch.len() <= scene.next_id,
    ensures
        scene.admitting(batch).wf(),
{
    let all = scene.entities + batch;
    let n = scene.entities.len();
    assert forall|i: int| 0 <= i < all.len() implies (#[trigger] all[i]).id
        < scene.next_id by {
        if i < n {
            assert(all[i] == scene.entities[i]);
        } else {
            assert(all[i] == batch[i - n]);
        }
    }
    assert forall|i: int, j: int| 0 <= i < j < all.len() implies (#[trigger] all[i]).id < (
    #[trigger] all[j]).id by {
        if j < n {
            assert(all[i] == scene.entities[i]);
            assert(all[j] == scene.entities[j]);
        } else if i < n {
            assert(all[i] == scene.entities[i]);
            assert(all[j] == batch[j - n]);
        } else {
            assert(all[i] == batch[i - n]);
            assert(all[j] == batch[j - n]);
        }
    }
}

} // verus!
