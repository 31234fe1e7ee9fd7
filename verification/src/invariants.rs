use crate::combat::{
    after_contact, after_death, after_event, after_events, after_hit, health_after_hits,
    score_of, spec_attacker_shape, spec_overlay, spec_victim_shape, Outcome,
};
use crate::components::{Components, ExplosionKind, ExplosionSpawnEvent, GameEnd, Position};
use crate::events::BusState;
use crate::explosion::{after_spawns, after_tick, spec_explosion_components};
use crate::physics::{reading_behind, BodyId, BodyReading, ColliderId, ContactEvent};
use crate::single::Single;
use crate::spawn::{spawned_times, spec_dead_monster, spec_monster, with_hunters};
use crate::store::{EntityId, StoreState};
use vstd::prelude::*;

verus! {

/// What never changes of an entity while it lives, and what changes one way
/// only: its name, damage, aggressiveness and markers stay; it keeps having
/// health or having none; its health never rises and its score never falls.
pub open spec fn settled(before: Components, after: Components) -> bool {
    &&& after.name == before.name
    &&& after.damage == before.damage
    &&& after.aggressiveness == before.aggressiveness
    &&& after.monster == before.monster
    &&& after.hunter == before.hunter
    &&& after.health is Some <==> before.health is Some
    &&& before.health is Some ==> after.health->0 <= before.health->0
    &&& score_of(after) >= score_of(before)
}

/// Whether `after` is a later state of the store `before`: no identifier is
/// taken back, no dead entity is live again, and every entity that lives in
/// both is settled.
pub open spec fn carries_on(before: StoreState, after: StoreState) -> bool {
    &&& before.issued <= after.issued
    &&& forall|id: EntityId|
        #[trigger] after.live.contains_key(id) && id.0 < before.issued
            ==> before.live.contains_key(id)
    &&& forall|id: EntityId|
        before.live.contains_key(id) && #[trigger] after.live.contains_key(id) ==> settled(
            before.live[id],
            after.live[id],
        )
}

/// Health stays between zero and what it was, whatever hits follow.
pub proof fn lemma_health_stays_within_bounds(health: u16, hits: Seq<u16>)
    ensures
        0 <= health_after_hits(health, hits) <= health,
    decreases hits.len(),
{
    if hits.len() > 0 {
        lemma_health_stays_within_bounds(health, hits.drop_last());
    }
}

/// A store carries on from itself.
pub proof fn lemma_carries_on_reflexive(store: StoreState)
    ensures
        carries_on(store, store),
{
}

/// A later state of a later state is a later state.
pub proof fn lemma_carries_on_transitive(first: StoreState, second: StoreState, third: StoreState)
    requires
        first.wf(),
        carries_on(first, second),
        carries_on(second, third),
    ensures
        carries_on(first, third),
{
    assert forall|id: EntityId|
        #[trigger] third.live.contains_key(id) && id.0 < first.issued implies first.live.contains_key(
        id,
    ) by {
        assert(second.live.contains_key(id));
    }
    assert forall|id: EntityId|
        first.live.contains_key(id) && #[trigger] third.live.contains_key(id) implies settled(
        first.live[id],
        third.live[id],
    ) by {
        assert(second.live.contains_key(id));
    }
}

/// A contact leaves the store well formed and carries it on: nobody's health
/// rises, nobody's score falls, names, damage, aggressiveness and markers
/// stay, and nothing dead lives again.
pub proof fn lemma_contact_carries_on(
    store: StoreState,
    bus: BusState,
    victim: EntityId,
    attacker: EntityId,
    position: Position,
)
    requires
        store.wf(),
        after_contact(store, bus, victim, attacker, position).store.issued <= usize::MAX,
    ensures
        after_contact(store, bus, victim, attacker, position).store.wf(),
        carries_on(store, after_contact(store, bus, victim, attacker, position).store),
{
}

/// The events of a tick leave the store well formed and carry it on.
pub proof fn lemma_events_carry_on(
    before: Outcome,
    parents: Map<ColliderId, BodyId>,
    readings: Map<BodyId, BodyReading>,
    events: Seq<ContactEvent>,
)
    requires
        before.store.wf(),
        after_events(before, parents, readings, events).store.issued <= usize::MAX,
    ensures
        after_events(before, parents, readings, events).store.wf(),
        carries_on(before.store, after_events(before, parents, readings, events).store),
    decreases events.len(),
{
    if events.len() > 0 {
        let earlier = after_events(before, parents, readings, events.drop_last());
        let last = after_event(earlier, parents, readings, events.last());
        lemma_event_issues_more(earlier, parents, readings, events.last());
        lemma_events_carry_on(before, parents, readings, events.drop_last());
        lemma_event_carries_on(earlier, parents, readings, events.last());
        lemma_carries_on_transitive(before.store, earlier.store, last.store);
    }
}

/// One event never takes an identifier back.
pub proof fn lemma_event_issues_more(
    before: Outcome,
    parents: Map<ColliderId, BodyId>,
    readings: Map<BodyId, BodyReading>,
    event: ContactEvent,
)
    ensures
        before.store.issued <= after_event(before, parents, readings, event).store.issued,
{
}

/// One event leaves the store well formed and carries it on.
pub proof fn lemma_event_carries_on(
    before: Outcome,
    parents: Map<ColliderId, BodyId>,
    readings: Map<BodyId, BodyReading>,
    event: ContactEvent,
)
    requires
        before.store.wf(),
        after_event(before, parents, readings, event).store.issued <= usize::MAX,
    ensures
        after_event(before, parents, readings, event).store.wf(),
        carries_on(before.store, after_event(before, parents, readings, event).store),
{
    match event {
        ContactEvent::Started(first, second) => {
            match (
                reading_behind(parents, readings, first),
                reading_behind(parents, readings, second),
            ) {
                (Some(struck), Some(striking)) => {
                    lemma_contact_carries_on(
                        before.store,
                        before.bus,
                        EntityId::spec_from_tag(struck.tag),
                        EntityId::spec_from_tag(striking.tag),
                        struck.position,
                    );
                },
                _ => {},
            }
        },
        ContactEvent::Stopped(_, _) => {},
    }
}

/// Whether `id` is a live entity marked as the monster.
pub open spec fn is_monster(store: StoreState, id: EntityId) -> bool {
    store.live.contains_key(id) && store.live[id].monster
}

/// Whether the store holds no monster.
pub open spec fn no_monster(store: StoreState) -> bool {
    forall|id: EntityId| !is_monster(store, id)
}

/// The rule of the game: only the monster can be hit, there is at most one
/// monster, and while the end of the game is announced and what follows the
/// monster is not spawned yet, there is none.
pub open spec fn coherent(store: StoreState, bus: BusState) -> bool {
    &&& forall|id: EntityId| #[trigger]
        store.matches(id, spec_victim_shape()) ==> is_monster(store, id)
    &&& forall|a: EntityId, b: EntityId|
        is_monster(store, a) && is_monster(store, b) ==> a == b
    &&& bus.game_ends.len() <= 1
    &&& bus.game_ends.len() == 1 ==> no_monster(store)
}

/// A contact keeps the rule of the game. Where it kills, it kills the monster,
/// and the end of the game is announced once.
pub proof fn lemma_contact_keeps_coherence(
    store: StoreState,
    bus: BusState,
    victim: EntityId,
    attacker: EntityId,
    position: Position,
)
    requires
        store.wf(),
        coherent(store, bus),
    ensures
        coherent(
            after_contact(store, bus, victim, attacker, position).store,
            after_contact(store, bus, victim, attacker, position).bus,
        ),
{
    let after = after_contact(store, bus, victim, attacker, position);
    if store.matches(victim, spec_victim_shape()) {
        assert(is_monster(store, victim));
        let struck = if store.matches(attacker, spec_attacker_shape()) {
            after_hit(store, bus, victim, attacker)
        } else {
            Outcome { store, bus }
        };
        assert forall|id: EntityId| is_monster(struck.store, id) implies is_monster(store, id) by {}
        assert forall|id: EntityId| #[trigger]
            struck.store.matches(id, spec_victim_shape()) implies store.matches(
            id,
            spec_victim_shape(),
        ) by {}
        if struck.store.live[victim].health == Some(0u16) {
            assert(is_monster(struck.store, victim));
            assert(after == after_death(struck.store, struck.bus, victim, position));
            let fresh = EntityId(struck.store.issued as u64);
            assert(struck.store.issued == store.issued);
            assert forall|id: EntityId| !is_monster(after.store, id) by {
                if is_monster(after.store, id) {
                    assert(id != fresh);
                    assert(id != victim);
                    assert(is_monster(struck.store, id));
                    assert(is_monster(store, id));
                }
            }
            assert forall|id: EntityId| #[trigger]
                after.store.matches(id, spec_victim_shape()) implies is_monster(
                after.store,
                id,
            ) by {
                assert(struck.store.matches(id, spec_victim_shape()));
            }
        } else {
            assert(after == struck);
        }
    }
    assert forall|a: EntityId, b: EntityId|
        is_monster(after.store, a) && is_monster(after.store, b) implies a == b by {
        assert(is_monster(store, a));
        assert(is_monster(store, b));
    }
}

/// A death is whole. A contact after which its victim no longer lives has
/// despawned it, spawned the overlay, announced the end of the game and asked
/// for an explosion where the victim was; any other contact has spawned and
/// despawned nothing, announced no end and asked for no explosion.
pub proof fn lemma_death_is_whole(
    store: StoreState,
    bus: BusState,
    victim: EntityId,
    attacker: EntityId,
    position: Position,
)
    requires
        store.wf(),
    ensures
        ({
            let after = after_contact(store, bus, victim, attacker, position);
            let died = store.live.contains_key(victim) && !after.store.live.contains_key(victim);
            &&& died ==> {
                &&& after.store.live.dom() == store.live.dom().remove(victim).insert(
                    EntityId(store.issued as u64),
                )
                &&& after.store.live[EntityId(store.issued as u64)] == spec_overlay()
                &&& after.store.issued == store.issued + 1
                &&& after.bus.game_ends == bus.game_ends.push(GameEnd {  })
                &&& after.bus.explosions == bus.explosions.push(
                    ExplosionSpawnEvent {
                        kind: ExplosionKind::ShipDead,
                        x: position.x,
                        y: position.y,
                    },
                )
            }
            &&& !died ==> {
                &&& after.store.live.dom() == store.live.dom()
                &&& after.store.issued == store.issued
                &&& after.bus.game_ends == bus.game_ends
                &&& after.bus.explosions == bus.explosions
            }
        }),
{
    let after = after_contact(store, bus, victim, attacker, position);
    if store.matches(victim, spec_victim_shape()) {
        let struck = if store.matches(attacker, spec_attacker_shape()) {
            after_hit(store, bus, victim, attacker)
        } else {
            Outcome { store, bus }
        };
        assert(struck.store.live.dom() =~= store.live.dom());
        if struck.store.live[victim].health == Some(0u16) {
            assert(after == after_death(struck.store, struck.bus, victim, position));
            assert(after.store.live.dom() =~= store.live.dom().remove(victim).insert(
                EntityId(store.issued as u64),
            ));
        }
    }
}

/// The events of a tick keep the rule of the game.
pub proof fn lemma_events_keep_coherence(
    before: Outcome,
    parents: Map<ColliderId, BodyId>,
    readings: Map<BodyId, BodyReading>,
    events: Seq<ContactEvent>,
)
    requires
        before.store.wf(),
        coherent(before.store, before.bus),
        after_events(before, parents, readings, events).store.issued <= usize::MAX,
    ensures
        coherent(
            after_events(before, parents, readings, events).store,
            after_events(before, parents, readings, events).bus,
        ),
    decreases events.len(),
{
    if events.len() > 0 {
        let earlier = after_events(before, parents, readings, events.drop_last());
        lemma_event_issues_more(earlier, parents, readings, events.last());
        lemma_events_carry_on(before, parents, readings, events.drop_last());
        lemma_events_keep_coherence(before, parents, readings, events.drop_last());
        match events.last() {
            ContactEvent::Started(first, second) => {
                match (
                    reading_behind(parents, readings, first),
                    reading_behind(parents, readings, second),
                ) {
                    (Some(struck), Some(striking)) => {
                        lemma_contact_keeps_coherence(
                            earlier.store,
                            earlier.bus,
                            EntityId::spec_from_tag(struck.tag),
                            EntityId::spec_from_tag(striking.tag),
                            struck.position,
                        );
                    },
                    _ => {},
                }
            },
            ContactEvent::Stopped(_, _) => {},
        }
    }
}

/// Spawning what follows the dead monster, once for each announced end of the
/// game, keeps the rule of the game; so at most one monster lives at any time.
pub proof fn lemma_game_ending_keeps_coherence(store: StoreState, bus: BusState)
    requires
        store.wf(),
        coherent(store, bus),
    ensures
        coherent(
            spawned_times(store, spec_dead_monster(), bus.game_ends.len()),
            BusState { explosions: bus.explosions, attacks: bus.attacks, game_ends: Seq::empty() },
        ),
{
    reveal_with_fuel(spawned_times, 2);
    if bus.game_ends.len() == 1 {
        let after = spawned_times(store, spec_dead_monster(), 1);
        assert(after == store.spawn(spec_dead_monster()));
        assert forall|a: EntityId, b: EntityId|
            is_monster(after, a) && is_monster(after, b) implies a == b by {
            assert(!is_monster(store, a));
            assert(!is_monster(store, b));
        }
        assert forall|id: EntityId| #[trigger]
            after.matches(id, spec_victim_shape()) implies is_monster(after, id) by {
            assert(store.matches(id, spec_victim_shape()));
        }
    }
}

/// A store without a monster, on a bus that announces no end of the game,
/// follows the rule of the game once the monster and the hunters are spawned.
pub proof fn lemma_setup_establishes_coherence(
    store: StoreState,
    bus: BusState,
    aggressiveness: Seq<Single>,
)
    requires
        store.wf(),
        store.issued + 4 <= usize::MAX,
        aggressiveness.len() == 3,
        coherent(store, bus),
        no_monster(store),
        bus.game_ends.len() == 0,
    ensures
        coherent(with_hunters(store.spawn(spec_monster()), aggressiveness), bus),
{
    let after = with_hunters(store.spawn(spec_monster()), aggressiveness);
    let monster = EntityId(store.issued as u64);
    assert forall|id: EntityId| is_monster(after, id) implies id == monster by {
        assert(!is_monster(store, id));
    }
    assert forall|id: EntityId| #[trigger]
        after.matches(id, spec_victim_shape()) implies is_monster(after, id) by {
        if id != monster {
            assert(store.matches(id, spec_victim_shape()));
            assert(is_monster(store, id));
        }
    }
}

/// Spawning an entity leaves the store well formed and carries it on.
pub proof fn lemma_spawn_carries_on(store: StoreState, components: Components)
    requires
        store.wf(),
        store.issued < usize::MAX,
    ensures
        store.spawn(components).wf(),
        carries_on(store, store.spawn(components)),
{
}

/// Spawning an entity that is no monster and cannot be hit keeps the rule of
/// the game.
pub proof fn lemma_spawn_keeps_coherence(store: StoreState, bus: BusState, components: Components)
    requires
        store.wf(),
        store.issued < usize::MAX,
        coherent(store, bus),
        !components.monster,
        !components.fits(spec_victim_shape()),
    ensures
        coherent(store.spawn(components), bus),
{
    let after = store.spawn(components);
    assert forall|id: EntityId| is_monster(after, id) implies is_monster(store, id) by {}
    assert forall|id: EntityId| #[trigger]
        after.matches(id, spec_victim_shape()) implies is_monster(after, id) by {
        assert(store.matches(id, spec_victim_shape()));
        assert(is_monster(store, id));
    }
    assert forall|a: EntityId, b: EntityId|
        is_monster(after, a) && is_monster(after, b) implies a == b by {
        assert(is_monster(store, a));
        assert(is_monster(store, b));
    }
}

/// Spawning the explosions that were asked for never takes an identifier back.
pub proof fn lemma_spawns_issue_more(store: StoreState, events: Seq<ExplosionSpawnEvent>)
    ensures
        after_spawns(store, events).issued == store.issued + events.len(),
    decreases events.len(),
{
    if events.len() > 0 {
        lemma_spawns_issue_more(store, events.drop_last());
    }
}

/// Spawning the explosions that were asked for leaves the store well formed,
/// carries it on and keeps the rule of the game.
pub proof fn lemma_spawns_carry_on(store: StoreState, bus: BusState, events: Seq<ExplosionSpawnEvent>)
    requires
        store.wf(),
        store.issued + events.len() <= usize::MAX,
    ensures
        after_spawns(store, events).wf(),
        carries_on(store, after_spawns(store, events)),
        coherent(store, bus) ==> coherent(after_spawns(store, events), bus),
    decreases events.len(),
{
    if events.len() > 0 {
        let earlier = after_spawns(store, events.drop_last());
        let components = spec_explosion_components(events.last());
        lemma_spawns_issue_more(store, events.drop_last());
        lemma_spawns_carry_on(store, bus, events.drop_last());
        lemma_spawn_carries_on(earlier, components);
        lemma_carries_on_transitive(store, earlier, earlier.spawn(components));
        if coherent(store, bus) {
            lemma_spawn_keeps_coherence(earlier, bus, components);
        }
    }
}

/// A tick of the explosions leaves the store well formed, carries it on and
/// keeps the rule of the game.
pub proof fn lemma_tick_carries_on(store: StoreState, bus: BusState, delta: u64)
    requires
        store.wf(),
    ensures
        after_tick(store, delta).wf(),
        carries_on(store, after_tick(store, delta)),
        coherent(store, bus) ==> coherent(after_tick(store, delta), bus),
{
    let after = after_tick(store, delta);
    if coherent(store, bus) {
        assert forall|id: EntityId| is_monster(after, id) implies is_monster(store, id) by {}
        assert forall|id: EntityId| #[trigger]
            after.matches(id, spec_victim_shape()) implies is_monster(after, id) by {
            assert(store.matches(id, spec_victim_shape()));
            assert(is_monster(store, id));
        }
        assert forall|a: EntityId, b: EntityId|
            is_monster(after, a) && is_monster(after, b) implies a == b by {
            assert(is_monster(store, a));
            assert(is_monster(store, b));
        }
    }
}

/// Spawning what follows the dead monster leaves the store well formed and
/// carries it on.
pub proof fn lemma_game_ending_carries_on(store: StoreState, count: nat)
    requires
        store.wf(),
        store.issued + count <= usize::MAX,
    ensures
        spawned_times(store, spec_dead_monster(), count).wf(),
        spawned_times(store, spec_dead_monster(), count).issued == store.issued + count,
        carries_on(store, spawned_times(store, spec_dead_monster(), count)),
    decreases count,
{
    if count > 0 {
        let earlier = spawned_times(store, spec_dead_monster(), (count - 1) as nat);
        lemma_game_ending_carries_on(store, (count - 1) as nat);
        lemma_spawn_carries_on(earlier, spec_dead_monster());
        lemma_carries_on_transitive(store, earlier, earlier.spawn(spec_dead_monster()));
    }
}

/// Spawning the monster and the hunters leaves the store well formed and
/// carries it on.
pub proof fn lemma_setup_carries_on(store: StoreState, aggressiveness: Seq<Single>)
    requires
        store.wf(),
        store.issued + 4 <= usize::MAX,
        aggressiveness.len() == 3,
    ensures
        with_hunters(store.spawn(spec_monster()), aggressiveness).wf(),
        carries_on(store, with_hunters(store.spawn(spec_monster()), aggressiveness)),
{
}

} // verus!
