use crate::components::Position;
use crate::single::Single;
use bevy_rapier2d::rapier::dynamics::{RigidBodyHandle, RigidBodySet};
use bevy_rapier2d::rapier::geometry::{ColliderHandle, ColliderSet};
use vstd::prelude::*;

verus! {

/// The pattern of 600: bodies further than this from the centre, to the left
/// or to the right, are outside the arena.
pub const ARENA_HALF_WIDTH: u32 = 0x4416_0000;

/// The pattern of 300: bodies further than this from the centre, up or down,
/// are outside the arena.
pub const ARENA_HALF_HEIGHT: u32 = 0x4396_0000;

/// The physics engine's registry of colliders.
#[verifier::external_type_specification]
#[verifier::external_body]
pub struct ExColliderSet(bevy_rapier2d::rapier::geometry::ColliderSet);

/// The physics engine's registry of rigid bodies.
#[verifier::external_type_specification]
#[verifier::external_body]
pub struct ExRigidBodySet(bevy_rapier2d::rapier::dynamics::RigidBodySet);

/// Identifies a collider of the physics engine: a slot of its registry and the
/// generation of that slot.
#[derive(Clone, Copy, Debug, PartialEq, Eq, Hash, Structural)]
pub struct ColliderId {
    pub index: usize,
    pub generation: u64,
}

/// Identifies a rigid body of the physics engine: a slot of its registry and
/// the generation of that slot.
#[derive(Clone, Copy, Debug, PartialEq, Eq, Hash, Structural)]
pub struct BodyId {
    pub index: usize,
    pub generation: u64,
}

/// What the physics engine reports of two colliders.
#[derive(Clone, Copy, Debug, PartialEq, Eq, Structural)]
pub enum ContactEvent {
    /// The two began to touch.
    Started(ColliderId, ColliderId),
    /// The two stopped touching.
    Stopped(ColliderId, ColliderId),
}

/// What the core reads of a rigid body: the tag it was created with, where it
/// is, and its angular velocity.
#[derive(Clone, Copy, Debug, PartialEq, Eq, Structural)]
pub struct BodyReading {
    pub tag: u128,
    pub position: Position,
    pub spin: Single,
}

/// What to do to a body on this tick.
#[derive(Clone, Copy, Debug, PartialEq, Eq, Structural)]
pub struct BindingAction {
    /// Set the body's linear velocity to what its entity desires.
    pub assign_velocity: bool,
    /// Stop the body's rotation and reset its orientation.
    pub recover: bool,
}

/// The colliders that a registry holds, each with the body it is attached to.
pub uninterp spec fn collider_parents(colliders: ColliderSet) -> Map<ColliderId, BodyId>;

/// The bodies that a registry holds, each with what the core reads of it.
pub uninterp spec fn body_readings(bodies: RigidBodySet) -> Map<BodyId, BodyReading>;

/// What `map` holds under `key`, if anything.
pub open spec fn lookup<K, V>(map: Map<K, V>, key: K) -> Option<V> {
    if map.contains_key(key) {
        Some(map[key])
    } else {
        None
    }
}

/// The reading of the body that `collider` is attached to: nothing when the
/// collider is unknown, or its body is.
pub open spec fn reading_behind(
    parents: Map<ColliderId, BodyId>,
    readings: Map<BodyId, BodyReading>,
    collider: ColliderId,
) -> Option<BodyReading> {
    match lookup(parents, collider) {
        Some(body) => lookup(readings, body),
        None => None,
    }
}

/// Whether the point lies outside the arena: further than 600 from the centre
/// sideways, or further than 300 up or down.
pub open spec fn outside_arena(position: Position) -> bool {
    position.x.exceeds_whole(600) || position.y.exceeds_whole(300)
}

/// What to do to a body that reads as `reading`: a body that rotates gets no
/// velocity, and a body outside the arena is made to recover.
pub open spec fn binding_for(reading: BodyReading) -> BindingAction {
    BindingAction {
        assign_velocity: reading.spin.is_zero(),
        recover: outside_arena(reading.position),
    }
}

/// How a body reads once a recovery was carried out and nothing else moved it:
/// it no longer rotates, and it is where it was.
pub open spec fn recovered(reading: BodyReading) -> BodyReading {
    BodyReading { tag: reading.tag, position: reading.position, spin: Single { bits: 0 } }
}

/// `ColliderSet::get`, then `Collider::parent`: the body that the collider is
/// attached to, or nothing when the registry holds no collider in that slot
/// and of that generation.
#[verifier::external_body]
fn collider_parent(colliders: &ColliderSet, collider: ColliderId) -> (parent: Option<BodyId>)
    ensures
        parent == lookup(collider_parents(*colliders), collider),
{
    let handle = ColliderHandle::from_raw_parts(collider.index, collider.generation);
    match colliders.get(handle) {
        Some(found) => {
            let (index, generation) = found.parent().into_raw_parts();
            Some(BodyId { index, generation })
        },
        None => None,
    }
}

/// `RigidBodySet::get`, then the body's `user_data`, `position` and `angvel`:
/// what the core reads of the body, or nothing when the registry holds no body
/// in that slot and of that generation.
#[verifier::external_body]
fn body_reading(bodies: &RigidBodySet, body: BodyId) -> (reading: Option<BodyReading>)
    ensures
        reading == lookup(body_readings(*bodies), body),
{
    let handle = RigidBodyHandle::from_raw_parts(body.index, body.generation);
    match bodies.get(handle) {
        Some(found) => {
            let x = Single { bits: found.position().translation.x.to_bits() };
            let y = Single { bits: found.position().translation.y.to_bits() };
            let spin = Single { bits: found.angvel().to_bits() };
            Some(BodyReading { tag: found.user_data, position: Position { x, y }, spin })
        },
        None => None,
    }
}

/// Reads the body that `collider` is attached to.
pub fn read_behind(
    colliders: &ColliderSet,
    bodies: &RigidBodySet,
    collider: ColliderId,
) -> (reading: Option<BodyReading>)
    ensures
        reading == reading_behind(
            collider_parents(*colliders),
            body_readings(*bodies),
            collider,
        ),
{
    match collider_parent(colliders, collider) {
        Some(body) => body_reading(bodies, body),
        None => None,
    }
}

/// Tells whether the point lies outside the arena.
pub fn is_outside_arena(position: Position) -> (outside: bool)
    ensures
        outside == outside_arena(position),
{
    proof {
        Single::lemma_whole_patterns();
    }
    position.x.magnitude_exceeds(Single { bits: ARENA_HALF_WIDTH })
        || position.y.magnitude_exceeds(Single { bits: ARENA_HALF_HEIGHT })
}

/// Decides what to do to a body that reads as `reading`.
pub fn binding_action(reading: BodyReading) -> (action: BindingAction)
    ensures
        action == binding_for(reading),
{
    BindingAction {
        assign_velocity: !reading.spin.is_nonzero(),
        recover: is_outside_arena(reading.position),
    }
}

/// Decides, for each body of `movers` in turn, what to do to it on this tick;
/// nothing for a body that the registry does not hold.
pub fn position_system(
    bodies: &RigidBodySet,
    movers: &Vec<BodyId>,
) -> (actions: Vec<Option<BindingAction>>)
    ensures
        actions@.len() == movers@.len(),
        forall|i: int|
            0 <= i < movers@.len() ==> actions@[i] == match lookup(
                body_readings(*bodies),
                #[trigger] movers@[i],
            ) {
                Some(reading) => Some(binding_for(reading)),
                None => None,
            },
{
    let mut actions: Vec<Option<BindingAction>> = Vec::new();
    let mut next: usize = 0;
    while next < movers.len()
        invariant
            next <= movers@.len(),
            actions@.len() == next,
            forall|i: int|
                0 <= i < next ==> actions@[i] == match lookup(
                    body_readings(*bodies),
                    #[trigger] movers@[i],
                ) {
                    Some(reading) => Some(binding_for(reading)),
                    None => None,
                },
        decreases movers@.len() - next,
    {
        let action = match body_reading(bodies, movers[next]) {
            Some(reading) => Some(binding_action(reading)),
            None => None,
        };
        actions.push(action);
        next = next + 1;
    }
    actions
}

/// A body outside the arena is made to recover. Once that is carried out it no
/// longer rotates and is where it was, so on the next tick it gets its velocity
/// again, and it is made to recover again for as long as it stays outside.
pub proof fn lemma_recovery_does_not_lock(reading: BodyReading)
    requires
        outside_arena(reading.position),
    ensures
        binding_for(reading).recover,
        recovered(reading).spin.is_zero(),
        recovered(reading).position == reading.position,
        binding_for(recovered(reading)).assign_velocity,
        binding_for(recovered(reading)).recover,
{
    assert(0u32 & !0x8000_0000u32 == 0u32) by (bit_vector);
}

} // verus!
