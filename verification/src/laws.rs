//! What holds of the game over any number of frames.

use vstd::prelude::*;
use crate::assets::SpriteCatalog;
use crate::components::{AppState, DirectionEnum, Keys};
use crate::entity::Entity;
use crate::game::Stage;
use crate::rules::{BULLET_DAMAGE, BULLET_LIFETIME, BULLET_SPEED, MUZZLE_OFFSET};
use crate::systems::{
    lemma_admitting, lemma_same_ids, lemma_survivors_ids, lemma_volley_ids, survivors, volley,
};
use crate::units::{saturate, travel};
use crate::world::{lemma_count_one, same_ids, Role, Scene};

verus! {

/// One frame's input: the keys held and the microseconds elapsed.
pub struct Input {
    pub keys: Keys,
    pub dt: u64,
}

impl Stage {
    /// The game after the frames of `inputs`, one after the other. A frame
    /// that fails is followed by the next like any other.
    pub open spec fn after_frames(self, inputs: Seq<Input>) -> Stage
        decreases inputs.len(),
    {
        if inputs.len() == 0 {
            self
        } else {
            self.after_frames(inputs.drop_last()).after_frame(
                inputs.last().keys,
                inputs.last().dt,
            ).0
        }
    }
}

impl Entity {
    /// The entity after the chase system has run once for each of
    /// `targets`, the places of the player frame by frame, with the frames'
    /// lengths in `inputs`.
    pub open spec fn chased_through(self, targets: Seq<(i64, i64)>, inputs: Seq<Input>) -> Entity
        recommends
            targets.len() == inputs.len(),
        decreases targets.len(),
    {
        if targets.len() == 0 || inputs.len() == 0 {
            self
        } else {
            self.chased_through(targets.drop_last(), inputs.drop_last()).chased(
                targets.last().0,
                targets.last().1,
                inputs.last().dt,
            )
        }
    }

    /// Whether the entity is one that the keys steer and that is no bullet.
    pub open spec fn piloted(self) -> bool {
        self.steerable() && !self.bullet
    }
}

/// Whether every piloted entity of `s` lies within the playing width.
pub open spec fn held_in_width(s: Seq<Entity>) -> bool {
    forall|i: int|
        0 <= i < s.len() && (#[trigger] s[i]).piloted() ==> s[i].transform.unwrap().in_width()
}

/// The movement system leaves every living entity that it steers within the
/// band around the camera height that it was given, whether the entity moved
/// or not.
pub proof fn lemma_moved_in_band(e: Entity, keys: Keys, dt: u64, camera_y: i64)
    requires
        e.steerable(),
        !e.dead(),
    ensures
        e.moved(keys, dt, camera_y).transform.unwrap().in_band(camera_y),
{
}

/// The movement system leaves an entity within the playing width that was
/// within it, and brings every living entity that it moves into it.
pub proof fn lemma_moved_in_width(e: Entity, keys: Keys, dt: u64, camera_y: i64)
    requires
        e.steerable(),
    ensures
        e.transform.unwrap().in_width() ==> e.moved(
            keys,
            dt,
            camera_y,
        ).transform.unwrap().in_width(),
        !e.dead() && (keys.axis_x() != 0 || keys.axis_y() != 0) ==> e.moved(
            keys,
            dt,
            camera_y,
        ).transform.unwrap().in_width(),
{
}

/// A living entity that the movement system steers faces the last of the
/// held keys, in the order left, right, up, down: down wins over up, up over
/// right, right over left.
pub proof fn lemma_last_key_wins(e: Entity, keys: Keys, dt: u64, camera_y: i64)
    requires
        e.steerable(),
        !e.dead(),
    ensures
        keys.down ==> e.moved(keys, dt, camera_y).direction.unwrap().direction
            == DirectionEnum::Down,
        !keys.down && keys.up ==> e.moved(keys, dt, camera_y).direction.unwrap().direction
            == DirectionEnum::Up,
        !keys.down && !keys.up && keys.right ==> e.moved(
            keys,
            dt,
            camera_y,
        ).direction.unwrap().direction == DirectionEnum::Right,
        !keys.down && !keys.up && !keys.right && keys.left ==> e.moved(
            keys,
            dt,
            camera_y,
        ).direction.unwrap().direction == DirectionEnum::Left,
        !keys.down && !keys.up && !keys.right && !keys.left ==> e.moved(
            keys,
            dt,
            camera_y,
        ).direction == e.direction,
{
}

/// The bullet of a shooter appears sixty units in front of it along the
/// axis it faces, turned the way it faces, with the bullets' speed, damage
/// and lifetime.
pub proof fn lemma_bullet_at_muzzle(shooter: Entity, id: u64)
    requires
        shooter.armed(),
    ensures
        ({
            let d = shooter.direction.unwrap().direction;
            let from = shooter.transform.unwrap();
            let b = shooter.bullet_of(id);
            &&& b.flying()
            &&& b.transform.unwrap().x == saturate(from.x + d.unit().0 * MUZZLE_OFFSET)
            &&& b.transform.unwrap().y == saturate(from.y + d.unit().1 * MUZZLE_OFFSET)
            &&& b.transform.unwrap().heading.quarter_turn() == Some(d.turn())
            &&& b.direction.unwrap().direction == d
            &&& b.speed.unwrap().speed == BULLET_SPEED
            &&& b.damage.unwrap().damage == BULLET_DAMAGE
            &&& b.expire.unwrap().time == BULLET_LIFETIME
        }),
{
}

/// A bullet advances by its speed times the frame's length along the axis
/// it faces and stays where it is on the other axis. In particular one that
/// faces right, has a speed, and has not reached the largest coordinate
/// moves strictly to the right in every frame that takes time.
pub proof fn lemma_bullet_flight(b: Entity, dt: u64)
    requires
        b.flying(),
    ensures
        ({
            let d = b.direction.unwrap().direction;
            let from = b.transform.unwrap();
            let to = b.flown(dt).transform.unwrap();
            let step = travel(b.speed.unwrap().speed as int, dt as int);
            &&& b.flown(dt).flying()
            &&& b.flown(dt).direction == b.direction
            &&& b.flown(dt).speed == b.speed
            &&& to.x == saturate(from.x + d.unit().0 * step)
            &&& to.y == saturate(from.y + d.unit().1 * step)
            &&& to.heading == from.heading
            &&& d == DirectionEnum::Right ==> to.y == from.y && to.x >= from.x
            &&& d == DirectionEnum::Right && b.speed.unwrap().speed > 0 && dt > 0 && from.x
                < i64::MAX ==> to.x > from.x
        }),
{
    let speed = b.speed.unwrap().speed as int;
    assert(0 <= speed * dt) by (nonlinear_arith)
        requires
            0 <= speed,
            0 <= dt,
    ;
    assert(speed > 0 && dt > 0 ==> speed * dt > 0) by (nonlinear_arith);
}

/// An entity is removed by the expiry system exactly when the frame lasts
/// at least as long as its countdown has left. Otherwise the frame's time
/// comes off the countdown, which so falls with every frame that takes time
/// and stays above zero.
pub proof fn lemma_expiry(e: Entity, dt: u64)
    requires
        e.expire.is_some(),
    ensures
        e.aged(dt).is_none() <==> dt >= e.expire.unwrap().time,
        e.aged(dt).is_some() ==> {
            let after = e.aged(dt).unwrap();
            &&& after.expire.is_some()
            &&& after.expire.unwrap().time == e.expire.unwrap().time - dt
            &&& 0 < after.expire.unwrap().time <= e.expire.unwrap().time
            &&& after.id == e.id
            &&& after.transform == e.transform
        },
{
}

/// A dead entity is left as it is by the chase system, however many frames
/// pass and wherever the player goes.
pub proof fn lemma_dead_chaser_rests(e: Entity, targets: Seq<(i64, i64)>, inputs: Seq<Input>)
    requires
        e.dead(),
    ensures
        e.chased_through(targets, inputs) == e,
    decreases targets.len(),
{
    if targets.len() > 0 && inputs.len() > 0 {
        lemma_dead_chaser_rests(e, targets.drop_last(), inputs.drop_last());
    }
}

/// While the game rests, a frame changes nothing in the world, and ends
/// well.
pub proof fn lemma_pause_is_still(stage: Stage, keys: Keys, dt: u64)
    requires
        stage.mode == AppState::Paused,
    ensures
        stage.after_frame(keys, dt).0.scene == stage.scene,
        stage.after_frame(keys, dt).1.is_ok(),
        stage.after_frame(keys, dt).0.mode == if keys.pause {
            AppState::InGame
        } else {
            AppState::Paused
        },
{
}

/// The pause key held in a frame of the running game, and again in the next
/// frame, leads into the pause and back: the game runs again, and the world
/// is as it was when the pause began.
pub proof fn lemma_pause_twice(stage: Stage, first: Input, second: Input)
    requires
        stage.mode == AppState::InGame,
        first.keys.pause,
        second.keys.pause,
        stage.after_frame(first.keys, first.dt).1.is_ok(),
    ensures
        ({
            let paused = stage.after_frame(first.keys, first.dt).0;
            let resumed = paused.after_frame(second.keys, second.dt);
            &&& paused.mode == AppState::Paused
            &&& resumed.1.is_ok()
            &&& resumed.0.mode == AppState::InGame
            &&& resumed.0.scene == paused.scene
            &&& resumed.0.catalog == stage.catalog
        }),
{
}

/// Everything in a volley is a bullet.
pub proof fn lemma_volley_bullets(s: Seq<Entity>, first: int)
    ensures
        forall|k: int| 0 <= k < volley(s, first).len() ==> (#[trigger] volley(s, first)[k]).bullet,
    decreases s.len(),
{
    if s.len() > 0 {
        lemma_volley_bullets(s.drop_last(), first);
    }
}

/// One frame of the game loop keeps the order of the identifiers.
pub proof fn lemma_tick_wf(scene: Scene, keys: Keys, dt: u64)
    requires
        scene.wf(),
    ensures
        scene.after_tick(keys, dt).0.wf(),
{
    let first = scene.next_id as int;
    if let Ok(moved) = scene.after_movement(keys, dt) {
        assert(same_ids(scene.entities, moved.entities));
        lemma_same_ids(scene.entities, moved.entities, first);
        if let Ok(cooled) = moved.after_trigger(keys, dt) {
            let shots = moved.shots(keys);
            if keys.fire {
                lemma_volley_ids(moved.entities, first);
            }
            assert(same_ids(moved.entities, cooled.entities));
            lemma_same_ids(moved.entities, cooled.entities, first);
            let flown = cooled.after_bullets(dt);
            assert(same_ids(cooled.entities, flown.entities));
            lemma_same_ids(cooled.entities, flown.entities, first);
            let aged = flown.after_expiry(dt);
            lemma_survivors_ids(flown.entities, dt, first);
            lemma_admitting(aged, shots, first);
            if let Ok(chased) = aged.after_chase(dt) {
                assert(same_ids(aged.entities, chased.entities));
                lemma_same_ids(aged.entities, chased.entities, first);
                lemma_admitting(chased, shots, first);
                if let Ok(scrolled) = chased.after_scroll(dt) {
                    lemma_count_one(chased.entities, Role::Camera);
                    assert(same_ids(chased.entities, scrolled.entities));
                    lemma_same_ids(chased.entities, scrolled.entities, first);
                    lemma_admitting(scrolled, shots, first);
                }
            }
        }
    }
}

/// One frame, in whatever mode, keeps the order of the identifiers.
pub proof fn lemma_frame_wf(stage: Stage, keys: Keys, dt: u64)
    requires
        stage.scene.wf(),
    ensures
        stage.after_frame(keys, dt).0.scene.wf(),
{
    if stage.mode == AppState::InGame {
        lemma_tick_wf(stage.scene, keys, dt);
    }
}

/// However many frames pass, the order of the identifiers is kept.
pub proof fn lemma_frames_wf(stage: Stage, inputs: Seq<Input>)
    requires
        stage.scene.wf(),
    ensures
        stage.after_frames(inputs).scene.wf(),
    decreases inputs.len(),
{
    if inputs.len() > 0 {
        lemma_frames_wf(stage, inputs.drop_last());
        lemma_frame_wf(
            stage.after_frames(inputs.drop_last()),
            inputs.last().keys,
            inputs.last().dt,
        );
    }
}

/// Whether `after` is what a system may make of `before` without harm to
/// the playing width: piloted only if `before` was, and within the width if
/// `before` was.
pub open spec fn keeps_width(before: Entity, after: Entity) -> bool {
    after.piloted() ==> before.piloted() && (before.transform.unwrap().in_width()
        ==> after.transform.unwrap().in_width())
}

/// Entities that a system changes in place stay within the playing width
/// where each of them keeps it.
proof fn lemma_held_in_place(before: Seq<Entity>, after: Seq<Entity>)
    requires
        held_in_width(before),
        before.len() == after.len(),
        forall|i: int| 0 <= i < after.len() ==> keeps_width(before[i], #[trigger] after[i]),
    ensures
        held_in_width(after),
{
    assert forall|i: int| 0 <= i < after.len() && (#[trigger] after[i]).piloted() implies after[
        i
    ].transform.unwrap().in_width() by {
        assert(keeps_width(before[i], after[i]));
        assert(before[i].piloted());
    }
}

/// What the expiry system leaves stays within the playing width.
proof fn lemma_held_after_expiry(s: Seq<Entity>, dt: u64)
    requires
        held_in_width(s),
    ensures
        held_in_width(survivors(s, dt)),
    decreases s.len(),
{
    if s.len() > 0 {
        let front = s.drop_last();
        assert forall|i: int| 0 <= i < front.len() && (#[trigger] front[i]).piloted() implies front[
        i
    ].transform.unwrap().in_width() by {
            assert(front[i] == s[i]);
        }
        lemma_held_after_expiry(front, dt);
        let kept = survivors(front, dt);
        let all = survivors(s, dt);
        assert forall|i: int| 0 <= i < all.len() && (#[trigger] all[i]).piloted() implies all[
        i
    ].transform.unwrap().in_width() by {
            if i < kept.len() {
                assert(all[i] == kept[i]);
            } else {
                assert(s[s.len() - 1].piloted());
            }
        }
    }
}

/// Bullets that join entities within the playing width leave them so.
proof fn lemma_held_admitting(s: Seq<Entity>, batch: Seq<Entity>)
    requires
        held_in_width(s),
        forall|k: int| 0 <= k < batch.len() ==> (#[trigger] batch[k]).bullet,
    ensures
        held_in_width(s + batch),
{
    let all = s + batch;
    assert forall|i: int| 0 <= i < all.len() && (#[trigger] all[i]).piloted() implies all[
        i
    ].transform.unwrap().in_width() by {
        if i < s.len() {
            assert(all[i] == s[i]);
        } else {
            assert(all[i] == batch[i - s.len()]);
        }
    }
}

/// One frame of the game loop keeps every piloted entity within the playing
/// width, if they all were within it.
pub proof fn lemma_tick_keeps_width(scene: Scene, keys: Keys, dt: u64)
    requires
        held_in_width(scene.entities),
    ensures
        held_in_width(scene.after_tick(keys, dt).0.entities),
{
    if let Ok(moved) = scene.after_movement(keys, dt) {
        lemma_held_in_place(scene.entities, moved.entities);
        if let Ok(cooled) = moved.after_trigger(keys, dt) {
            let shots = moved.shots(keys);
            lemma_volley_bullets(moved.entities, moved.next_id as int);
            lemma_held_in_place(moved.entities, cooled.entities);
            let flown = cooled.after_bullets(dt);
            lemma_held_in_place(cooled.entities, flown.entities);
            let aged = flown.after_expiry(dt);
            lemma_held_after_expiry(flown.entities, dt);
            lemma_held_admitting(aged.entities, shots);
            if let Ok(chased) = aged.after_chase(dt) {
                lemma_held_in_place(aged.entities, chased.entities);
                lemma_held_admitting(chased.entities, shots);
                if let Ok(scrolled) = chased.after_scroll(dt) {
                    lemma_count_one(chased.entities, Role::Camera);
                    lemma_held_in_place(chased.entities, scrolled.entities);
                    lemma_held_admitting(scrolled.entities, shots);
                }
            }
        }
    }
}

/// The world that the start of the game builds holds its piloted entities
/// within the playing width.
pub proof fn lemma_start_in_width(catalog: SpriteCatalog, mode: AppState)
    ensures
        Stage::opening(mode, catalog).entering(mode).is_ok() ==> held_in_width(
            Stage::opening(mode, catalog).entering(mode).unwrap().scene.entities,
        ),
{
}

/// In every frame, in whatever mode, the piloted entities stay within the
/// playing width, if they all were within it.
pub proof fn lemma_frame_keeps_width(stage: Stage, keys: Keys, dt: u64)
    requires
        held_in_width(stage.scene.entities),
    ensures
        held_in_width(stage.after_frame(keys, dt).0.scene.entities),
{
    if stage.mode == AppState::InGame {
        lemma_tick_keeps_width(stage.scene, keys, dt);
    }
}

/// However many frames pass, the piloted entities stay within the playing
/// width, if they all were within it.
pub proof fn lemma_frames_keep_width(stage: Stage, inputs: Seq<Input>)
    requires
        held_in_width(stage.scene.entities),
    ensures
        held_in_width(stage.after_frames(inputs).scene.entities),
    decreases inputs.len(),
{
    if inputs.len() > 0 {
        lemma_frames_keep_width(stage, inputs.drop_last());
        lemma_frame_keeps_width(
            stage.after_frames(inputs.drop_last()),
            inputs.last().keys,
            inputs.last().dt,
        );
    }
}

impl Entity {
    /// Whether the entity is dead and neither a bullet nor marked as the
    /// camera: no system has a reason to move it.
    pub open spec fn inert(self) -> bool {
        self.dead() && !self.bullet && !self.scrolling
    }
}

/// Whether every entity of `s` that goes under the identifier of `e` is
/// inert and stands where `e` stands, turned as `e` is turned.
pub open spec fn rests_in(s: Seq<Entity>, e: Entity) -> bool {
    forall|k: int|
        0 <= k < s.len() && (#[trigger] s[k]).id == e.id ==> s[k].inert() && s[k].transform
            == e.transform
}

/// Whether `after` is what a system may make of `before` without moving the
/// inert: under the same identifier, and, if `before` is inert, inert and
/// where `before` is.
pub open spec fn keeps_rest(before: Entity, after: Entity) -> bool {
    &&& after.id == before.id
    &&& before.inert() ==> after.inert() && after.transform == before.transform
}

/// In a world in order, the entity at a place is the only one under its
/// identifier.
pub proof fn lemma_rests_at_first(scene: Scene, i: int)
    requires
        scene.wf(),
        0 <= i < scene.entities.len(),
        scene.entities[i].inert(),
    ensures
        rests_in(scene.entities, scene.entities[i]),
        scene.entities[i].id < scene.next_id,
{
    let s = scene.entities;
    assert forall|k: int| 0 <= k < s.len() && (#[trigger] s[k]).id == s[i].id implies k == i by {
        if k < i {
            assert(s[k].id < s[i].id);
        } else if i < k {
            assert(s[i].id < s[k].id);
        }
    }
}

/// Entities that a system changes in place leave an inert entity at rest
/// where each of them does.
proof fn lemma_rests_in_place(before: Seq<Entity>, after: Seq<Entity>, e: Entity)
    requires
        rests_in(before, e),
        before.len() == after.len(),
        forall|k: int| 0 <= k < after.len() ==> keeps_rest(before[k], #[trigger] after[k]),
    ensures
        rests_in(after, e),
{
    assert forall|k: int| 0 <= k < after.len() && (#[trigger] after[k]).id == e.id implies after[
        k
    ].inert() && after[k].transform == e.transform by {
        assert(keeps_rest(before[k], after[k]));
        assert(before[k].id == e.id);
    }
}

/// What the expiry system leaves of an inert entity is at rest.
proof fn lemma_rests_after_expiry(s: Seq<Entity>, dt: u64, e: Entity)
    requires
        rests_in(s, e),
    ensures
        rests_in(survivors(s, dt), e),
    decreases s.len(),
{
    if s.len() > 0 {
        let front = s.drop_last();
        assert forall|k: int|
            0 <= k < front.len() && (#[trigger] front[k]).id == e.id implies front[k].inert()
            && front[k].transform == e.transform by {
            assert(front[k] == s[k]);
        }
        lemma_rests_after_expiry(front, dt, e);
        let kept = survivors(front, dt);
        let all = survivors(s, dt);
        assert forall|k: int| 0 <= k < all.len() && (#[trigger] all[k]).id == e.id implies all[
            k
        ].inert() && all[k].transform == e.transform by {
            if k < kept.len() {
                assert(all[k] == kept[k]);
            } else {
                assert(s[s.len() - 1].id == e.id);
            }
        }
    }
}

/// Bullets under identifiers from `first` on do not disturb an entity with
/// an identifier below `first`.
proof fn lemma_rests_admitting(s: Seq<Entity>, batch: Seq<Entity>, e: Entity, first: int)
    requires
        rests_in(s, e),
        e.id < first,
        forall|k: int| 0 <= k < batch.len() ==> (#[trigger] batch[k]).id == first + k,
    ensures
        rests_in(s + batch, e),
{
    let all = s + batch;
    assert forall|k: int| 0 <= k < all.len() && (#[trigger] all[k]).id == e.id implies all[
        k
    ].inert() && all[k].transform == e.transform by {
        if k < s.len() {
            assert(all[k] == s[k]);
        } else {
            assert(all[k] == batch[k - s.len()]);
        }
    }
}

/// An inert entity neither moves nor turns in a frame of the game loop: if
/// the frame leaves it in the world, it is inert still, and its place and
/// orientation are what they were. No identifier is given out again.
pub proof fn lemma_rest_kept_by_tick(scene: Scene, keys: Keys, dt: u64, e: Entity)
    requires
        rests_in(scene.entities, e),
        e.id < scene.next_id,
    ensures
        rests_in(scene.after_tick(keys, dt).0.entities, e),
        scene.after_tick(keys, dt).0.next_id >= scene.next_id,
{
    let first = scene.next_id as int;
    if let Ok(moved) = scene.after_movement(keys, dt) {
        lemma_rests_in_place(scene.entities, moved.entities, e);
        if let Ok(cooled) = moved.after_trigger(keys, dt) {
            let shots = moved.shots(keys);
            if keys.fire {
                lemma_volley_ids(moved.entities, first);
            }
            lemma_rests_in_place(moved.entities, cooled.entities, e);
            let flown = cooled.after_bullets(dt);
            lemma_rests_in_place(cooled.entities, flown.entities, e);
            let aged = flown.after_expiry(dt);
            lemma_rests_after_expiry(flown.entities, dt, e);
            lemma_rests_admitting(aged.entities, shots, e, first);
            if let Ok(chased) = aged.after_chase(dt) {
                lemma_rests_in_place(aged.entities, chased.entities, e);
                lemma_rests_admitting(chased.entities, shots, e, first);
                if let Ok(scrolled) = chased.after_scroll(dt) {
                    lemma_count_one(chased.entities, Role::Camera);
                    lemma_rests_in_place(chased.entities, scrolled.entities, e);
                    lemma_rests_admitting(scrolled.entities, shots, e, first);
                }
            }
        }
    }
}

/// An inert entity neither moves nor turns in a frame, in whatever mode.
pub proof fn lemma_rest_kept_by_frame(stage: Stage, keys: Keys, dt: u64, e: Entity)
    requires
        rests_in(stage.scene.entities, e),
        e.id < stage.scene.next_id,
    ensures
        rests_in(stage.after_frame(keys, dt).0.scene.entities, e),
        stage.after_frame(keys, dt).0.scene.next_id >= stage.scene.next_id,
{
    if stage.mode == AppState::InGame {
        lemma_rest_kept_by_tick(stage.scene, keys, dt, e);
    }
}

/// An inert entity neither moves nor turns however many frames pass.
pub proof fn lemma_rest_kept_by_frames(stage: Stage, inputs: Seq<Input>, e: Entity)
    requires
        rests_in(stage.scene.entities, e),
        e.id < stage.scene.next_id,
    ensures
        rests_in(stage.after_frames(inputs).scene.entities, e),
        stage.after_frames(inputs).scene.next_id >= stage.scene.next_id,
    decreases inputs.len(),
{
    if inputs.len() > 0 {
        lemma_rest_kept_by_frames(stage, inputs.drop_last(), e);
        lemma_rest_kept_by_frame(
            stage.after_frames(inputs.drop_last()),
            inputs.last().keys,
            inputs.last().dt,
            e,
        );
    }
}

/// An entity of the world that is dead, such as a chaser without hit
/// points, and neither a bullet nor the camera, never moves nor turns,
/// however many frames pass: as long as it is in the world, its place and
/// orientation are what they were.
pub proof fn lemma_dead_rests_through_frames(stage: Stage, inputs: Seq<Input>, i: int)
    requires
        stage.scene.wf(),
        0 <= i < stage.scene.entities.len(),
        stage.scene.entities[i].inert(),
    ensures
        rests_in(stage.after_frames(inputs).scene.entities, stage.scene.entities[i]),
{
    lemma_rests_at_first(stage.scene, i);
    lemma_rest_kept_by_frames(stage, inputs, stage.scene.entities[i]);
}

} // verus!
