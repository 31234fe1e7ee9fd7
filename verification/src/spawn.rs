use crate::components::Components;
use crate::events::{BusState, EventBus};
use crate::invariants::{
    carries_on, coherent, lemma_game_ending_carries_on, lemma_game_ending_keeps_coherence,
    lemma_setup_carries_on, lemma_setup_establishes_coherence, no_monster,
};
use crate::single::Single;
use crate::store::{EntityId, Store, StoreState};
use vstd::prelude::*;

verus! {

/// The health that the monster starts with.
pub const MONSTER_HEALTH: u16 = 100;

/// The damage that one hit of a hunter does.
pub const HUNTER_DAMAGE: u16 = 20;

/// The monster and the three hunters that a game starts with.
#[derive(Clone, Copy, Debug, PartialEq, Eq)]
pub struct Cast {
    pub monster: EntityId,
    pub hunters: [EntityId; 3],
}

/// The monster as it is created: named, in full health, marked as the monster.
pub open spec fn spec_monster() -> Components {
    Components {
        name: Some("Bevy"),
        health: Some(MONSTER_HEALTH),
        damage: None,
        score: None,
        aggressiveness: None,
        monster: true,
        hunter: false,
        sprite: None,
        explosion: None,
    }
}

/// A hunter as it is created: named, with its damage and aggressiveness, a
/// score of zero, marked as a hunter.
pub open spec fn spec_hunter(name: &'static str, aggressiveness: Single) -> Components {
    Components {
        name: Some(name),
        health: None,
        damage: Some(HUNTER_DAMAGE),
        score: Some(0),
        aggressiveness: Some(aggressiveness),
        monster: false,
        hunter: true,
        sprite: None,
        explosion: None,
    }
}

/// What takes the place of the monster once it is dead: named and marked as
/// the monster, but without health, so that nothing can hit it.
pub open spec fn spec_dead_monster() -> Components {
    Components {
        name: Some("DeadBevy"),
        health: None,
        damage: None,
        score: None,
        aggressiveness: None,
        monster: true,
        hunter: false,
        sprite: None,
        explosion: None,
    }
}

/// The store after three hunters were spawned: Alice, Bob and Charlie, in this
/// order, each with its aggressiveness.
pub open spec fn with_hunters(store: StoreState, aggressiveness: Seq<Single>) -> StoreState
    recommends
        aggressiveness.len() == 3,
{
    store.spawn(spec_hunter("Alice", aggressiveness[0])).spawn(
        spec_hunter("Bob", aggressiveness[1]),
    ).spawn(spec_hunter("Charlie", aggressiveness[2]))
}

/// The store after `count` entities with the same component set were spawned.
pub open spec fn spawned_times(store: StoreState, components: Components, count: nat) -> StoreState
    decreases count,
{
    if count == 0 {
        store
    } else {
        spawned_times(store, components, (count - 1) as nat).spawn(components)
    }
}

/// The monster as it is created.
#[verifier::when_used_as_spec(spec_monster)]
pub fn monster() -> (components: Components)
    ensures
        components == spec_monster(),
{
    let mut components = Components::none();
    components.name = Some("Bevy");
    components.health = Some(MONSTER_HEALTH);
    components.monster = true;
    components
}

/// A hunter as it is created.
#[verifier::when_used_as_spec(spec_hunter)]
pub fn hunter(name: &'static str, aggressiveness: Single) -> (components: Components)
    ensures
        components == spec_hunter(name, aggressiveness),
{
    let mut components = Components::none();
    components.name = Some(name);
    components.damage = Some(HUNTER_DAMAGE);
    components.score = Some(0);
    components.aggressiveness = Some(aggressiveness);
    components.hunter = true;
    components
}

/// What takes the place of the monster once it is dead.
#[verifier::when_used_as_spec(spec_dead_monster)]
pub fn dead_monster() -> (components: Components)
    ensures
        components == spec_dead_monster(),
{
    let mut components = Components::none();
    components.name = Some("DeadBevy");
    components.monster = true;
    components
}

/// Spawns the three hunters, each with the aggressiveness drawn for it, and
/// returns them in the order Alice, Bob, Charlie.
pub fn spawn_hunter(store: &mut Store, aggressiveness: [Single; 3]) -> (hunters: [EntityId; 3])
    requires
        forall|i: int| 0 <= i < 3 ==> (#[trigger] aggressiveness@[i]).is_unit_fraction(),
    ensures
        final(store)@ == with_hunters(old(store)@, aggressiveness@),
        forall|i: int| 0 <= i < 3 ==> (#[trigger] hunters@[i]).0 == old(store)@.issued + i,
{
    let alice = store.spawn(hunter("Alice", aggressiveness[0]));
    let bob = store.spawn(hunter("Bob", aggressiveness[1]));
    let charlie = store.spawn(hunter("Charlie", aggressiveness[2]));
    [alice, bob, charlie]
}

/// Spawns the monster and then the three hunters. This carries the store on,
/// and a store that held no monster follows the rule of the game afterwards.
pub fn setup(store: &mut Store, aggressiveness: [Single; 3]) -> (cast: Cast)
    requires
        forall|i: int| 0 <= i < 3 ==> (#[trigger] aggressiveness@[i]).is_unit_fraction(),
    ensures
        final(store)@ == with_hunters(old(store)@.spawn(spec_monster()), aggressiveness@),
        cast.monster.0 == old(store)@.issued,
        forall|i: int|
            0 <= i < 3 ==> (#[trigger] cast.hunters@[i]).0 == old(store)@.issued + 1 + i,
        carries_on(old(store)@, final(store)@),
        forall|bus: BusState|
            coherent(old(store)@, bus) && no_monster(old(store)@) && bus.game_ends.len() == 0
                ==> #[trigger] coherent(final(store)@, bus),
{
    proof {
        store.lemma_view_wf();
    }
    let monster = store.spawn(monster());
    let hunters = spawn_hunter(store, aggressiveness);
    proof {
        store.lemma_view_wf();
        lemma_setup_carries_on(old(store)@, aggressiveness@);
        assert forall|bus: BusState|
            coherent(old(store)@, bus) && no_monster(old(store)@) && bus.game_ends.len()
                == 0 implies #[trigger] coherent(final(store)@, bus) by {
            lemma_setup_establishes_coherence(old(store)@, bus, aggressiveness@);
        }
    }
    Cast { monster, hunters }
}

/// Takes the game ends from the bus and spawns, for each, what takes the place
/// of the dead monster. Returns the new entities. This carries the store on
/// and keeps the rule of the game.
pub fn game_ending(store: &mut Store, bus: &mut EventBus) -> (spawned: Vec<EntityId>)
    ensures
        carries_on(old(store)@, final(store)@),
        coherent(old(store)@, old(bus)@) ==> coherent(final(store)@, final(bus)@),
        final(store)@ == spawned_times(
            old(store)@,
            spec_dead_monster(),
            old(bus)@.game_ends.len(),
        ),
        final(bus)@ == (BusState {
            explosions: old(bus)@.explosions,
            attacks: old(bus)@.attacks,
            game_ends: Seq::empty(),
        }),
        spawned@.len() == old(bus)@.game_ends.len(),
        forall|i: int| 0 <= i < spawned@.len() ==> spawned@[i].0 == old(store)@.issued + i,
{
    let events = bus.take_game_ends();
    proof {
        store.lemma_view_wf();
    }
    let mut spawned: Vec<EntityId> = Vec::new();
    let mut next: usize = 0;
    while next < events.len()
        invariant
            next <= events@.len(),
            old(store)@.wf(),
            store@ == spawned_times(old(store)@, spec_dead_monster(), next as nat),
            store@.issued == old(store)@.issued + next,
            spawned@.len() == next,
            forall|i: int| 0 <= i < next ==> spawned@[i].0 == old(store)@.issued + i,
        decreases events@.len() - next,
    {
        let id = store.spawn(dead_monster());
        spawned.push(id);
        next = next + 1;
    }
    proof {
        store.lemma_view_wf();
        lemma_game_ending_carries_on(old(store)@, events@.len());
        if coherent(old(store)@, old(bus)@) {
            lemma_game_ending_keeps_coherence(old(store)@, old(bus)@);
        }
    }
    spawned
}

} // verus!
