use crate::components::{Components, Shape};
use vstd::prelude::*;

verus! {

/// Identifies an entity of a [`Store`].
///
/// The store hands out the identifiers 0, 1, 2, ... in this order and never
/// hands one out twice, so an identifier whose entity was despawned stays dead.
#[derive(Clone, Copy, Debug, PartialEq, Eq, Hash, Structural)]
pub struct EntityId(pub u64);

impl EntityId {
    /// The tag under which a physics body refers to this entity.
    pub open spec fn spec_tag(self) -> u128 {
        self.0 as u128
    }

    /// The entity that a body's tag refers to: its low 64 bits.
    pub open spec fn spec_from_tag(tag: u128) -> EntityId {
        EntityId((tag % 0x1_0000_0000_0000_0000) as u64)
    }

    /// The tag to store on the physics body that belongs to this entity.
    #[verifier::when_used_as_spec(spec_tag)]
    pub fn tag(self) -> (tag: u128)
        ensures
            tag == self.spec_tag(),
    {
        self.0 as u128
    }

    /// The entity that a body's tag refers to.
    #[verifier::when_used_as_spec(spec_from_tag)]
    pub fn from_tag(tag: u128) -> (id: EntityId)
        ensures
            id == EntityId::spec_from_tag(tag),
    {
        EntityId((tag % 0x1_0000_0000_0000_0000) as u64)
    }

    /// A body tagged for an entity leads back to that entity.
    pub proof fn lemma_tag_round_trip(self)
        ensures
            EntityId::spec_from_tag(self.spec_tag()) == self,
    {
    }
}

/// What a [`Store`] holds: the component set of each live entity, and how many
/// identifiers it has handed out.
pub struct StoreState {
    pub live: Map<EntityId, Components>,
    pub issued: nat,
}

impl StoreState {
    /// Every live entity has an identifier that was handed out.
    pub open spec fn wf(self) -> bool {
        &&& self.issued <= usize::MAX
        &&& forall|id: EntityId| #[trigger] self.live.contains_key(id) ==> id.0 < self.issued
    }

    /// Whether `id` is live and its component set has the shape.
    pub open spec fn matches(self, id: EntityId, shape: Shape) -> bool {
        self.live.contains_key(id) && self.live[id].fits(shape)
    }

    /// The store with one more entity, under the next identifier.
    pub open spec fn spawn(self, components: Components) -> StoreState {
        StoreState {
            live: self.live.insert(EntityId(self.issued as u64), components),
            issued: self.issued + 1,
        }
    }

    /// The store without the entity `id`.
    pub open spec fn despawn(self, id: EntityId) -> StoreState {
        StoreState { live: self.live.remove(id), issued: self.issued }
    }

    /// The store with the component set of `id` replaced, if `id` is live.
    pub open spec fn update(self, id: EntityId, components: Components) -> StoreState {
        if self.live.contains_key(id) {
            StoreState { live: self.live.insert(id, components), issued: self.issued }
        } else {
            self
        }
    }

    /// Despawning an entity twice leaves the store as despawning it once does.
    pub proof fn lemma_despawn_idempotent(self, id: EntityId)
        ensures
            self.despawn(id).despawn(id) == self.despawn(id),
    {
        assert(self.live.remove(id).remove(id) =~= self.live.remove(id));
    }

    /// An identifier that was handed out and is dead stays dead whatever is
    /// spawned, despawned or updated next.
    pub proof fn lemma_dead_stays_dead(
        self,
        dead: EntityId,
        other: EntityId,
        components: Components,
    )
        requires
            self.wf(),
            dead.0 < self.issued,
            !self.live.contains_key(dead),
        ensures
            !self.spawn(components).live.contains_key(dead),
            !self.despawn(other).live.contains_key(dead),
            !self.update(other, components).live.contains_key(dead),
            dead.0 < self.spawn(components).issued,
    {
    }
}

/// The entity store: creates entities, looks them up by identifier, finds them
/// by the shape of their component set, and despawns them.
pub struct Store {
    slots: Vec<Option<Components>>,
}

impl View for Store {
    type V = StoreState;

    closed spec fn view(&self) -> StoreState {
        StoreState {
            live: Map::new(
                |id: EntityId| id.0 < self.slots@.len() && self.slots@[id.0 as int] is Some,
                |id: EntityId| self.slots@[id.0 as int]->0,
            ),
            issued: self.slots@.len(),
        }
    }
}

impl Store {
    /// What the store holds is always well formed.
    pub proof fn lemma_view_wf(&self)
        ensures
            self@.wf(),
    {
        vstd::std_specs::vec::axiom_spec_len(&self.slots);
    }

    /// An empty store that has handed out no identifier.
    pub fn new() -> (store: Store)
        ensures
            store@.live == Map::<EntityId, Components>::empty(),
            store@.issued == 0,
    {
        let store = Store { slots: Vec::new() };
        assert(store@.live =~= Map::<EntityId, Components>::empty());
        store
    }

    /// How many identifiers the store has handed out.
    pub fn issued(&self) -> (issued: u64)
        ensures
            issued == self@.issued,
    {
        self.slots.len() as u64
    }

    /// Tells whether `id` is live.
    pub fn contains(&self, id: EntityId) -> (live: bool)
        ensures
            live == self@.live.contains_key(id),
    {
        self.get(id).is_some()
    }

    /// The component set of `id`, or nothing when `id` is not live.
    pub fn get(&self, id: EntityId) -> (components: Option<Components>)
        ensures
            components == (if self@.live.contains_key(id) {
                Some(self@.live[id])
            } else {
                None
            }),
    {
        if id.0 < self.slots.len() as u64 {
            self.slots[id.0 as usize]
        } else {
            None
        }
    }

    /// Creates an entity with the given component set and returns its
    /// identifier, which no entity had before.
    pub fn spawn(&mut self, components: Components) -> (id: EntityId)
        ensures
            final(self)@ == old(self)@.spawn(components),
            id.0 == old(self)@.issued,
            !old(self)@.live.contains_key(id),
    {
        let id = EntityId(self.slots.len() as u64);
        self.slots.push(Some(components));
        proof {
            vstd::std_specs::vec::axiom_spec_len(&self.slots);
            assert(final(self)@.live =~= old(self)@.live.insert(id, components));
        }
        id
    }

    /// Despawns `id` and tells whether it was live. On an identifier that is
    /// not live this changes nothing.
    pub fn despawn(&mut self, id: EntityId) -> (was_live: bool)
        ensures
            final(self)@ == old(self)@.despawn(id),
            was_live == old(self)@.live.contains_key(id),
            !was_live ==> final(self)@ == old(self)@,
    {
        if id.0 < self.slots.len() as u64 {
            let was_live = self.slots[id.0 as usize].is_some();
            self.slots.set(id.0 as usize, None);
            proof {
                assert(final(self)@.live =~= old(self)@.live.remove(id));
                if !was_live {
                    assert(final(self)@.live =~= old(self)@.live);
                }
            }
            was_live
        } else {
            proof {
                assert(final(self)@.live =~= old(self)@.live.remove(id));
            }
            false
        }
    }

    /// Replaces the component set of `id` and tells whether `id` was live. On
    /// an identifier that is not live this changes nothing.
    pub fn update(&mut self, id: EntityId, components: Components) -> (was_live: bool)
        ensures
            final(self)@ == old(self)@.update(id, components),
            was_live == old(self)@.live.contains_key(id),
    {
        if id.0 < self.slots.len() as u64 && self.slots[id.0 as usize].is_some() {
            self.slots.set(id.0 as usize, Some(components));
            proof {
                assert(final(self)@.live =~= old(self)@.live.insert(id, components));
            }
            true
        } else {
            false
        }
    }

    /// The live entities whose component set has the shape, by rising
    /// identifier.
    pub fn query(&self, shape: Shape) -> (found: Vec<EntityId>)
        ensures
            forall|id: EntityId| found@.contains(id) <==> self@.matches(id, shape),
            forall|i: int, j: int| 0 <= i < j < found@.len() ==> found@[i].0 < found@[j].0,
    {
        let mut found: Vec<EntityId> = Vec::new();
        let mut next: usize = 0;
        while next < self.slots.len()
            invariant
                next <= self.slots@.len(),
                forall|id: EntityId|
                    found@.contains(id) <==> id.0 < next && self@.matches(id, shape),
                forall|i: int, j: int| 0 <= i < j < found@.len() ==> found@[i].0 < found@[j].0,
                forall|i: int| 0 <= i < found@.len() ==> found@[i].0 < next,
            decreases self.slots@.len() - next,
        {
            let ghost before = found@;
            let id = EntityId(next as u64);
            let hit = match self.slots[next] {
                Some(components) => components.fits(shape),
                None => false,
            };
            if hit {
                found.push(id);
            }
            proof {
                assert forall|other: EntityId|
                    found@.contains(other) <==> other.0 < next + 1 && self@.matches(
                        other,
                        shape,
                    ) by {
                    if hit {
                        assert(found@ == before.push(id));
                        assert(found@[before.len() as int] == id);
                        if before.contains(other) {
                            let i = choose|i: int| 0 <= i < before.len() && before[i] == other;
                            assert(found@[i] == other);
                        }
                        if found@.contains(other) && other != id {
                            let i = choose|i: int| 0 <= i < found@.len() && found@[i] == other;
                            assert(before[i] == other);
                        }
                    }
                }
            }
            next = next + 1;
        }
        found
    }

    /// The one live entity whose component set has the shape, or nothing when
    /// none has it or more than one has.
    pub fn single(&self, shape: Shape) -> (only: Option<EntityId>)
        ensures
            match only {
                Some(id) => self@.matches(id, shape) && forall|other: EntityId|
                    self@.matches(other, shape) ==> other == id,
                None => (forall|id: EntityId| !self@.matches(id, shape)) || (exists|
                    a: EntityId,
                    b: EntityId,
                | a != b && self@.matches(a, shape) && self@.matches(b, shape)),
            },
    {
        let found = self.query(shape);
        if found.len() == 1 {
            let id = found[0];
            proof {
                assert(found@.contains(id));
                assert forall|other: EntityId| self@.matches(other, shape) implies other
                    == id by {
                    assert(found@.contains(other));
                }
            }
            Some(id)
        } else {
            proof {
                if found@.len() == 0 {
                    assert forall|id: EntityId| !self@.matches(id, shape) by {
                        if self@.matches(id, shape) {
                            assert(found@.contains(id));
                        }
                    }
                } else {
                    assert(found@.contains(found@[0]));
                    assert(found@.contains(found@[1]));
                    assert(found@[0].0 < found@[1].0);
                }
            }
            None
        }
    }
}

} // verus!
