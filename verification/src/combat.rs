use crate::components::{
    AttackEvent, Components, ExplosionKind, ExplosionSpawnEvent, GameEnd, Kinds, Position, Shape,
    Sprite,
};
use crate::events::{BusState, EventBus};
use crate::invariants::{
    carries_on, coherent, lemma_contact_carries_on, lemma_contact_keeps_coherence,
    lemma_events_carry_on, lemma_events_keep_coherence,
};
use crate::physics::{
    body_readings, collider_parents, read_behind, reading_behind, BodyId, BodyReading,
    ColliderId, ContactEvent,
};
use crate::single::Single;
use crate::store::{EntityId, Store, StoreState};
use bevy_rapier2d::rapier::dynamics::RigidBodySet;
use bevy_rapier2d::rapier::geometry::ColliderSet;
use vstd::prelude::*;

verus! {

/// The scale of a sprite drawn at its natural size, in millionths.
pub const NATURAL_SCALE: u32 = 1_000_000;

/// The store and the bus together: what a contact changes.
pub struct Outcome {
    pub store: StoreState,
    pub bus: BusState,
}

/// The health that a hit of `damage` leaves: the difference, but never less
/// than zero.
pub open spec fn health_after(health: u16, damage: u16) -> u16 {
    if damage >= health {
        0
    } else {
        (health - damage) as u16
    }
}

/// The score after a hit of `damage`: the sum, but never more than the largest
/// score there is.
pub open spec fn score_after(score: u32, damage: u16) -> u32 {
    if score + damage > u32::MAX {
        u32::MAX
    } else {
        (score + damage) as u32
    }
}

/// The health left after the hits of `hits`, one after the other.
pub open spec fn health_after_hits(health: u16, hits: Seq<u16>) -> u16
    decreases hits.len(),
{
    if hits.len() == 0 {
        health
    } else {
        health_after(health_after_hits(health, hits.drop_last()), hits.last())
    }
}

/// What can be hit: it has a name and health, and is no hunter.
pub open spec fn spec_victim_shape() -> Shape {
    Shape {
        with: Kinds {
            name: true,
            health: true,
            damage: false,
            score: false,
            aggressiveness: false,
            monster: false,
            hunter: false,
            sprite: false,
            explosion: false,
        },
        without: Kinds {
            name: false,
            health: false,
            damage: false,
            score: false,
            aggressiveness: false,
            monster: false,
            hunter: true,
            sprite: false,
            explosion: false,
        },
    }
}

/// What can hit: it has a name and damage, and is no monster.
pub open spec fn spec_attacker_shape() -> Shape {
    Shape {
        with: Kinds {
            name: true,
            health: false,
            damage: true,
            score: false,
            aggressiveness: false,
            monster: false,
            hunter: false,
            sprite: false,
            explosion: false,
        },
        without: Kinds {
            name: false,
            health: false,
            damage: false,
            score: false,
            aggressiveness: false,
            monster: true,
            hunter: false,
            sprite: false,
            explosion: false,
        },
    }
}

/// The overlay shown when the game is over: a sprite at the centre, at its
/// natural size, and nothing else.
pub open spec fn spec_overlay() -> Components {
    Components {
        name: None,
        health: None,
        damage: None,
        score: None,
        aggressiveness: None,
        monster: false,
        hunter: false,
        sprite: Some(Sprite { x: Single { bits: 0 }, y: Single { bits: 0 }, scale: NATURAL_SCALE }),
        explosion: None,
    }
}

/// The score that counts for an entity: zero where it has none yet.
pub open spec fn score_of(components: Components) -> u32 {
    match components.score {
        Some(score) => score,
        None => 0,
    }
}

/// The outcome of a hit. `victim` loses health by the attacker's damage, then
/// `attacker` gains that damage as score, and an attack is announced with the
/// attacker's name and new score.
pub open spec fn after_hit(
    store: StoreState,
    bus: BusState,
    victim: EntityId,
    attacker: EntityId,
) -> Outcome
    recommends
        store.matches(victim, spec_victim_shape()),
        store.matches(attacker, spec_attacker_shape()),
{
    let target = store.live[victim];
    let damage = store.live[attacker].damage->0;
    let hurt = store.update(
        victim,
        Components { health: Some(health_after(target.health->0, damage)), ..target },
    );
    let striker = hurt.live[attacker];
    let score = score_after(score_of(striker), damage);
    Outcome {
        store: hurt.update(attacker, Components { score: Some(score), ..striker }),
        bus: BusState {
            explosions: bus.explosions,
            attacks: bus.attacks.push(AttackEvent { score, hunter_name: striker.name->0 }),
            game_ends: bus.game_ends,
        },
    }
}

/// The outcome of a death. `victim` is despawned, the overlay is spawned, the
/// end of the game is announced, and an explosion is asked for at `position`.
pub open spec fn after_death(
    store: StoreState,
    bus: BusState,
    victim: EntityId,
    position: Position,
) -> Outcome {
    Outcome {
        store: store.despawn(victim).spawn(spec_overlay()),
        bus: BusState {
            explosions: bus.explosions.push(
                ExplosionSpawnEvent { kind: ExplosionKind::ShipDead, x: position.x, y: position.y },
            ),
            attacks: bus.attacks,
            game_ends: bus.game_ends.push(GameEnd {  }),
        },
    }
}

/// The outcome of one contact between the entities `victim` and `attacker`,
/// where the body of `victim` is at `position`.
///
/// Nothing happens unless `victim` is live and can be hit. If `attacker` is
/// live and can hit, it hits. Then, if the health of `victim` is zero, it dies.
pub open spec fn after_contact(
    store: StoreState,
    bus: BusState,
    victim: EntityId,
    attacker: EntityId,
    position: Position,
) -> Outcome {
    if !store.matches(victim, spec_victim_shape()) {
        Outcome { store, bus }
    } else {
        let struck = if store.matches(attacker, spec_attacker_shape()) {
            after_hit(store, bus, victim, attacker)
        } else {
            Outcome { store, bus }
        };
        if struck.store.live[victim].health == Some(0u16) {
            after_death(struck.store, struck.bus, victim, position)
        } else {
            struck
        }
    }
}

/// The outcome of one event of the physics engine, given what its registries
/// hold. Only a contact that starts counts, and only if the bodies behind both
/// colliders are found: then the entity that the first body is tagged for may
/// be hit by the entity that the second body is tagged for.
pub open spec fn after_event(
    before: Outcome,
    parents: Map<ColliderId, BodyId>,
    readings: Map<BodyId, BodyReading>,
    event: ContactEvent,
) -> Outcome {
    match event {
        ContactEvent::Started(first, second) => {
            match (
                reading_behind(parents, readings, first),
                reading_behind(parents, readings, second),
            ) {
                (Some(struck), Some(striking)) => after_contact(
                    before.store,
                    before.bus,
                    EntityId::spec_from_tag(struck.tag),
                    EntityId::spec_from_tag(striking.tag),
                    struck.position,
                ),
                _ => before,
            }
        },
        ContactEvent::Stopped(_, _) => before,
    }
}

/// The outcome of the events of `events`, one after the other, oldest first.
pub open spec fn after_events(
    before: Outcome,
    parents: Map<ColliderId, BodyId>,
    readings: Map<BodyId, BodyReading>,
    events: Seq<ContactEvent>,
) -> Outcome
    decreases events.len(),
{
    if events.len() == 0 {
        before
    } else {
        after_event(
            after_events(before, parents, readings, events.drop_last()),
            parents,
            readings,
            events.last(),
        )
    }
}

/// The shape of what can be hit.
#[verifier::when_used_as_spec(spec_victim_shape)]
pub fn victim_shape() -> (shape: Shape)
    ensures
        shape == spec_victim_shape(),
{
    let mut with = Kinds::none();
    with.name = true;
    with.health = true;
    let mut without = Kinds::none();
    without.hunter = true;
    Shape { with, without }
}

/// The shape of what can hit.
#[verifier::when_used_as_spec(spec_attacker_shape)]
pub fn attacker_shape() -> (shape: Shape)
    ensures
        shape == spec_attacker_shape(),
{
    let mut with = Kinds::none();
    with.name = true;
    with.damage = true;
    let mut without = Kinds::none();
    without.monster = true;
    Shape { with, without }
}

/// The component set of the overlay shown when the game is over.
#[verifier::when_used_as_spec(spec_overlay)]
pub fn overlay() -> (components: Components)
    ensures
        components == spec_overlay(),
{
    let mut components = Components::none();
    components.sprite = Some(Sprite { x: Single::zero(), y: Single::zero(), scale: NATURAL_SCALE });
    components
}

/// Takes `damage` from `health`, stopping at zero.
pub fn apply_damage(health: u16, damage: u16) -> (left: u16)
    ensures
        left == health_after(health, damage),
        left <= health,
{
    if damage >= health {
        0
    } else {
        health - damage
    }
}

/// Adds `damage` to `score`, stopping at the largest score there is.
pub fn add_score(score: u32, damage: u16) -> (sum: u32)
    ensures
        sum == score_after(score, damage),
        sum >= score,
{
    let gain: u32 = damage as u32;
    if gain > u32::MAX - score {
        u32::MAX
    } else {
        score + gain
    }
}

/// Resolves one contact between the entities `victim` and `attacker`, where
/// the body of `victim` is at `position`. This carries the store on and keeps
/// the rule of the game.
pub fn resolve_contact(
    store: &mut Store,
    bus: &mut EventBus,
    victim: EntityId,
    attacker: EntityId,
    position: Position,
)
    ensures
        (Outcome { store: final(store)@, bus: final(bus)@ }) == after_contact(
            old(store)@,
            old(bus)@,
            victim,
            attacker,
            position,
        ),
        carries_on(old(store)@, final(store)@),
        coherent(old(store)@, old(bus)@) ==> coherent(final(store)@, final(bus)@),
{
    proof {
        store.lemma_view_wf();
    }
    let target = match store.get(victim) {
        Some(target) => target,
        None => {
            return ;
        },
    };
    if !target.fits(victim_shape()) {
        return ;
    }
    let hits = match store.get(attacker) {
        Some(striker) => striker.fits(attacker_shape()),
        None => false,
    };
    if hits {
        let damage = store.get(attacker).unwrap().damage.unwrap();
        let mut hurt = target;
        hurt.health = Some(apply_damage(target.health.unwrap(), damage));
        store.update(victim, hurt);
        let striker = store.get(attacker).unwrap();
        let score = add_score(
            match striker.score {
                Some(score) => score,
                None => 0,
            },
            damage,
        );
        let mut scored = striker;
        scored.score = Some(score);
        store.update(attacker, scored);
        bus.send_attack(AttackEvent { score, hunter_name: striker.name.unwrap() });
    }
    let dead = match store.get(victim).unwrap().health {
        Some(health) => health == 0,
        None => false,
    };
    if dead {
        store.despawn(victim);
        store.spawn(overlay());
        bus.send_game_end(GameEnd {  });
        bus.send_explosion(
            ExplosionSpawnEvent { kind: ExplosionKind::ShipDead, x: position.x, y: position.y },
        );
    }
    proof {
        store.lemma_view_wf();
        lemma_contact_carries_on(old(store)@, old(bus)@, victim, attacker, position);
        if coherent(old(store)@, old(bus)@) {
            lemma_contact_keeps_coherence(old(store)@, old(bus)@, victim, attacker, position);
        }
    }
}

/// Resolves the events that the physics engine queued on this tick, oldest
/// first and one at a time, against what its registries hold. This carries the
/// store on and keeps the rule of the game.
pub fn check_collision_events(
    store: &mut Store,
    bus: &mut EventBus,
    colliders: &ColliderSet,
    bodies: &RigidBodySet,
    events: &Vec<ContactEvent>,
)
    ensures
        (Outcome { store: final(store)@, bus: final(bus)@ }) == after_events(
            Outcome { store: old(store)@, bus: old(bus)@ },
            collider_parents(*colliders),
            body_readings(*bodies),
            events@,
        ),
        carries_on(old(store)@, final(store)@),
        coherent(old(store)@, old(bus)@) ==> coherent(final(store)@, final(bus)@),
{
    let ghost before = Outcome { store: store@, bus: bus@ };
    proof {
        store.lemma_view_wf();
    }
    let ghost parents = collider_parents(*colliders);
    let ghost readings = body_readings(*bodies);
    let mut next: usize = 0;
    while next < events.len()
        invariant
            next <= events@.len(),
            before.store.wf(),
            parents == collider_parents(*colliders),
            readings == body_readings(*bodies),
            (Outcome { store: store@, bus: bus@ }) == after_events(
                before,
                parents,
                readings,
                events@.take(next as int),
            ),
        decreases events@.len() - next,
    {
        proof {
            assert(events@.take(next + 1).drop_last() == events@.take(next as int));
            assert(events@.take(next + 1).last() == events@[next as int]);
        }
        match events[next] {
            ContactEvent::Started(first, second) => {
                let struck = read_behind(colliders, bodies, first);
                let striking = read_behind(colliders, bodies, second);
                match (struck, striking) {
                    (Some(struck), Some(striking)) => {
                        resolve_contact(
                            store,
                            bus,
                            EntityId::from_tag(struck.tag),
                            EntityId::from_tag(striking.tag),
                            struck.position,
                        );
                    },
                    _ => {},
                }
            },
            ContactEvent::Stopped(_, _) => {},
        }
        next = next + 1;
    }
    proof {
        assert(events@.take(next as int) == events@);
        store.lemma_view_wf();
        lemma_events_carry_on(before, parents, readings, events@);
        if coherent(before.store, before.bus) {
            lemma_events_keep_coherence(before, parents, readings, events@);
        }
    }
}

} // verus!
