//! The arena of entities, and the queries that expect one single match.

use vstd::prelude::*;
use crate::assets::Asset;
use crate::components::Transform;
use crate::entity::Entity;
use crate::modes::ModeError;

verus! {

/// The entities that a system expects exactly one of.
#[derive(Clone, Copy, Debug, PartialEq, Eq, Hash, Structural)]
pub enum Role {
    /// The camera that scrolls: marked as scrolling, with a place.
    Camera,
    /// The player: marked as the player, with a place.
    Player,
}

/// Why a system, or the building of the world, gave up.
#[derive(Clone, Copy, Debug, PartialEq, Eq, Hash, Structural)]
pub enum SimError {
    /// No entity has the role that a system needs one of.
    Missing(Role),
    /// More than one entity has the role that a system needs one of.
    Ambiguous(Role),
    /// The host has not loaded a sprite that the world is built with.
    MissingAsset(Asset),
    /// The world has no identifier left for a new entity.
    StoreExhausted,
    /// The mode machine turned a change of mode down.
    Transition(ModeError),
}

impl Entity {
    /// Whether the entity has the role `r`.
    pub open spec fn has_role(self, r: Role) -> bool {
        match r {
            Role::Camera => self.scrolling && self.transform.is_some(),
            Role::Player => self.player && self.transform.is_some(),
        }
    }

    /// Whether the entity has the role `r`.
    pub fn plays(&self, r: Role) -> (b: bool)
        ensures
            b == self.has_role(r),
    {
        match r {
            Role::Camera => self.scrolling && self.transform.is_some(),
            Role::Player => self.player && self.transform.is_some(),
        }
    }

    /// The entity under another identifier.
    pub open spec fn with_id(self, id: u64) -> Entity {
        Entity { id, ..self }
    }
}

/// How many of `s` have the role `r`.
pub open spec fn count_role(s: Seq<Entity>, r: Role) -> nat
    decreases s.len(),
{
    if s.len() == 0 {
        0
    } else {
        count_role(s.drop_last(), r) + if s.last().has_role(r) { 1nat } else { 0nat }
    }
}

/// Whether `i` is the place in `s` of the only entity with the role `r`.
pub open spec fn sole(s: Seq<Entity>, r: Role, i: int) -> bool {
    &&& 0 <= i < s.len()
    &&& s[i].has_role(r)
    &&& forall|j: int| 0 <= j < s.len() && #[trigger] s[j].has_role(r) ==> j == i
}

/// The place in `s` of an entity with the role `r`.
pub open spec fn place_of(s: Seq<Entity>, r: Role) -> int {
    choose|i: int| 0 <= i < s.len() && s[i].has_role(r)
}

/// The place in `s` of the only entity with the role `r`, or why there is
/// no such place.
pub open spec fn single(s: Seq<Entity>, r: Role) -> Result<int, SimError> {
    if count_role(s, r) == 0 {
        Err(SimError::Missing(r))
    } else if count_role(s, r) > 1 {
        Err(SimError::Ambiguous(r))
    } else {
        Ok(place_of(s, r))
    }
}

/// Where no entity has the role, the count is zero, and the other way round.
pub proof fn lemma_count_zero(s: Seq<Entity>, r: Role)
    ensures
        count_role(s, r) == 0 <==> forall|j: int|
            0 <= j < s.len() ==> !(#[trigger] s[j].has_role(r)),
    decreases s.len(),
{
    if s.len() > 0 {
        lemma_count_zero(s.drop_last(), r);
        if count_role(s, r) == 0 {
            assert forall|j: int| 0 <= j < s.len() implies !(#[trigger] s[j].has_role(r)) by {
                if j < s.len() - 1 {
                    assert(s.drop_last()[j] == s[j]);
                }
            }
        } else if forall|j: int| 0 <= j < s.len() ==> !(#[trigger] s[j].has_role(r)) {
            assert forall|j: int| 0 <= j < s.drop_last().len() implies !(
            #[trigger] s.drop_last()[j].has_role(r)) by {
                assert(s.drop_last()[j] == s[j]);
            }
            assert(!s.last().has_role(r));
        }
    }
}

/// The count is one exactly where one place holds the only entity with the
/// role.
pub proof fn lemma_count_one(s: Seq<Entity>, r: Role)
    ensures
        count_role(s, r) == 1 <==> exists|i: int| sole(s, r, i),
        count_role(s, r) == 1 ==> sole(s, r, place_of(s, r)),
    decreases s.len(),
{
    if s.len() > 0 {
        let front = s.drop_last();
        let n = s.len() - 1;
        lemma_count_one(front, r);
        lemma_count_zero(front, r);
        assert forall|j: int| 0 <= j < n implies front[j] == s[j] by {}
        if count_role(s, r) == 1 {
            if s.last().has_role(r) {
                assert(count_role(front, r) == 0);
                assert forall|j: int| 0 <= j < s.len() && #[trigger] s[j].has_role(r) implies j
                    == n by {
                    if j < n {
                        assert(front[j].has_role(r));
                    }
                }
                assert(sole(s, r, n));
            } else {
                assert(count_role(front, r) == 1);
                let i = choose|i: int| sole(front, r, i);
                assert(s[i] == front[i]);
                assert forall|j: int| 0 <= j < s.len() && #[trigger] s[j].has_role(r) implies j
                    == i by {
                    if j < n {
                        assert(front[j].has_role(r));
                    }
                }
                assert(sole(s, r, i));
            }
            let w = choose|i: int| sole(s, r, i);
            assert(0 <= w < s.len() && s[w].has_role(r));
            let p = place_of(s, r);
            assert(0 <= p < s.len() && s[p].has_role(r));
            assert(p == w);
        }
        if exists|i: int| sole(s, r, i) {
            let i = choose|i: int| sole(s, r, i);
            if i == n {
                assert forall|j: int| 0 <= j < front.len() implies !(#[trigger] front[j].has_role(
                    r,
                )) by {
                    assert(s[j] == front[j]);
                    if front[j].has_role(r) {
                        assert(s[j].has_role(r));
                    }
                }
                assert(count_role(front, r) == 0);
            } else {
                assert(front[i] == s[i]);
                assert(!s.last().has_role(r)) by {
                    if s[n].has_role(r) {
                        assert(n == i);
                    }
                }
                assert forall|j: int| 0 <= j < front.len() && #[trigger] front[j].has_role(
                    r,
                ) implies j == i by {
                    assert(s[j] == front[j]);
                    assert(s[j].has_role(r));
                }
                assert(sole(front, r, i));
                assert(count_role(front, r) == 1);
            }
        }
    } else {
        assert(!(exists|i: int| sole(s, r, i)));
    }
}

/// Whether the identifiers in `s` ascend along the order and lie below
/// `bound`.
pub open spec fn ascending(s: Seq<Entity>, bound: int) -> bool {
    &&& forall|i: int, j: int|
        0 <= i < j < s.len() ==> (#[trigger] s[i]).id < (#[trigger] s[j]).id
    &&& forall|i: int| 0 <= i < s.len() ==> (#[trigger] s[i]).id < bound
}

/// Whether `after` holds as many entities as `before`, each under the
/// identifier of the one at its place in `before`.
pub open spec fn same_ids(before: Seq<Entity>, after: Seq<Entity>) -> bool {
    &&& before.len() == after.len()
    &&& forall|i: int| 0 <= i < before.len() ==> (#[trigger] after[i]).id == before[i].id
}

/// The entities of a world in their order, and the identifier that the next
/// new entity gets.
pub struct Scene {
    pub entities: Seq<Entity>,
    pub next_id: u64,
}

impl Scene {
    /// The scene without entities.
    pub open spec fn vacant() -> Scene {
        Scene { entities: Seq::empty(), next_id: 0 }
    }

    /// Identifiers ascend along the order, and all lie below the next one:
    /// no two entities share one, and none is given out twice.
    pub open spec fn wf(self) -> bool {
        ascending(self.entities, self.next_id as int)
    }

    /// The scene with `e` added at the end, under the next identifier.
    pub open spec fn spawned(self, e: Entity) -> Scene {
        Scene {
            entities: self.entities.push(e.with_id(self.next_id)),
            next_id: (self.next_id + 1) as u64,
        }
    }

    /// The scene with the entities of `batch` added at the end as they are.
    pub open spec fn admitting(self, batch: Seq<Entity>) -> Scene {
        Scene { entities: self.entities + batch, next_id: self.next_id }
    }

    /// The place of the single entity with the role `r`.
    pub open spec fn the(self, r: Role) -> Transform
        recommends
            single(self.entities, r).is_ok(),
    {
        self.entities[place_of(self.entities, r)].transform.unwrap()
    }
}

/// The arena of entities.
#[derive(Clone, Debug, PartialEq, Eq)]
pub struct World {
    pub(crate) entities: Vec<Entity>,
    pub(crate) next_id: u64,
}

impl View for World {
    type V = Scene;

    open(crate) spec fn view(&self) -> Scene {
        Scene { entities: self.entities@, next_id: self.next_id }
    }
}

impl World {
    /// Whether the world is in order: see [`Scene::wf`].
    pub open spec fn wf(&self) -> bool {
        self@.wf()
    }

    /// A world without entities.
    pub fn new() -> (w: World)
        ensures
            w.wf(),
            w@ == Scene::vacant(),
    {
        World { entities: Vec::new(), next_id: 0 }
    }

    /// A world without entities in which the identifiers start at `first`.
    pub fn starting_at(first: u64) -> (w: World)
        ensures
            w.wf(),
            w@ == (Scene { entities: Seq::empty(), next_id: first }),
    {
        World { entities: Vec::new(), next_id: first }
    }

    /// The entities in their order.
    pub fn entities(&self) -> (all: Vec<Entity>)
        ensures
            all@ == self@.entities,
    {
        let mut all: Vec<Entity> = Vec::new();
        let n: usize = self.entities.len();
        let mut i: usize = 0;
        while i < n
            invariant
                0 <= i <= n,
                n == self.entities@.len(),
                all@ == self.entities@.take(i as int),
            decreases n - i,
        {
            all.push(self.entities[i]);
            proof {
                assert(self.entities@.take(i as int + 1) =~= self.entities@.take(i as int).push(
                    self.entities@[i as int],
                ));
            }
            i += 1;
        }
        proof {
            assert(self.entities@.take(n as int) =~= self.entities@);
        }
        all
    }

    /// The number of entities.
    pub fn len(&self) -> (n: usize)
        ensures
            n == self@.entities.len(),
    {
        self.entities.len()
    }

    /// The entity at place `i` of the order.
    pub fn get(&self, i: usize) -> (e: Option<Entity>)
        ensures
            e == if i < self@.entities.len() { Some(self@.entities[i as int]) } else { None },
    {
        if i < self.entities.len() {
            Some(self.entities[i])
        } else {
            None
        }
    }

    /// The identifier that the next new entity gets.
    pub fn next_id(&self) -> (id: u64)
        ensures
            id == self@.next_id,
    {
        self.next_id
    }

    /// Adds `e` at the end, under the next identifier, which is returned;
    /// the identifier that `e` came with is not looked at. Fails, and leaves
    /// the world as it is, where no identifier is left.
    pub fn spawn(&mut self, e: Entity) -> (r: Result<u64, SimError>)
        requires
            old(self).wf(),
        ensures
            final(self).wf(),
            old(self)@.next_id < u64::MAX ==> r == Ok::<u64, SimError>(old(self)@.next_id)
                && final(self)@ == old(self)@.spawned(e),
            old(self)@.next_id == u64::MAX ==> r == Err::<u64, SimError>(SimError::StoreExhausted)
                && final(self)@ == old(self)@,
    {
        if self.next_id == u64::MAX {
            return Err(SimError::StoreExhausted);
        }
        let id: u64 = self.next_id;
        self.entities.push(Entity { id, ..e });
        self.next_id = id + 1;
        Ok(id)
    }

    /// The place of the only entity with the role `r`; an error where no
    /// entity has the role, and another where several have it.
    pub fn single(&self, r: Role) -> (found: Result<usize, SimError>)
        ensures
            match found {
                Ok(i) => single(self@.entities, r) == Ok::<int, SimError>(i as int) && sole(
                    self@.entities,
                    r,
                    i as int,
                ),
                Err(e) => single(self@.entities, r) == Err::<int, SimError>(e),
            },
    {
        let mut count: usize = 0;
        let mut place: usize = 0;
        let mut i: usize = 0;
        let n: usize = self.entities.len();
        while i < n
            invariant
                n == self.entities@.len(),
                0 <= i <= n,
                count <= i,
                count == 0 ==> count_role(self.entities@.take(i as int), r) == 0,
                count == 1 ==> count_role(self.entities@.take(i as int), r) == 1 && place < i
                    && self.entities@[place as int].has_role(r),
                count == 2 ==> count_role(self.entities@.take(i as int), r) >= 2,
                count <= 2,
            decreases n - i,
        {
            proof {
                assert(self.entities@.take(i as int + 1).drop_last() =~= self.entities@.take(
                    i as int,
                ));
                assert(self.entities@.take(i as int + 1).last() == self.entities@[i as int]);
            }
            if self.entities[i].plays(r) {
                if count == 0 {
                    place = i;
                    count = 1;
                } else {
                    count = 2;
                }
            }
            i += 1;
        }
        proof {
            assert(self.entities@.take(n as int) =~= self.entities@);
            lemma_count_one(self.entities@, r);
        }
        if count == 0 {
            Err(SimError::Missing(r))
        } else if count == 1 {
            proof {
                let w = place_of(self.entities@, r);
                assert(sole(self.entities@, r, w));
                assert(w == place);
            }
            Ok(place)
        } else {
            Err(SimError::Ambiguous(r))
        }
    }
}

} // verus!
