use bevy_rapier2d::rapier::dynamics::{RigidBodyBuilder, RigidBodySet};
use bevy_rapier2d::rapier::geometry::{ColliderBuilder, ColliderSet};
use hunting_crustaceans::combat::{check_collision_events, overlay, victim_shape};
use hunting_crustaceans::components::{AttackEvent, ExplosionKind};
use hunting_crustaceans::events::EventBus;
use hunting_crustaceans::explosion::{explosion_shape, handle_explosion, spawn_explosion_event};
use hunting_crustaceans::physics::{ColliderId, ContactEvent};
use hunting_crustaceans::single::Single;
use hunting_crustaceans::spawn::{dead_monster, game_ending, setup};
use hunting_crustaceans::steering::{ai_system, monster_shape};
use hunting_crustaceans::store::{EntityId, Store};

const TICK: u64 = 16_666_667;

fn collider_for(
    bodies: &mut RigidBodySet,
    colliders: &mut ColliderSet,
    entity: EntityId,
    x: f32,
    y: f32,
) -> ColliderId {
    let body = RigidBodyBuilder::new_dynamic().translation(x, y).user_data(entity.tag()).build();
    let handle = bodies.insert(body);
    let collider = colliders.insert(ColliderBuilder::ball(40.0).build(), handle, bodies);
    let (index, generation) = collider.into_raw_parts();
    ColliderId { index, generation }
}

/// Runs what follows the physics step on one tick, in the order of the
/// schedule, and returns the attacks that the tick announced.
fn after_physics(
    store: &mut Store,
    bus: &mut EventBus,
    colliders: &ColliderSet,
    bodies: &RigidBodySet,
    events: Vec<ContactEvent>,
) -> Vec<AttackEvent> {
    check_collision_events(store, bus, colliders, bodies, &events);
    let attacks = bus.take_attacks();
    game_ending(store, bus);
    spawn_explosion_event(store, bus);
    handle_explosion(store, TICK);
    bus.clear();
    attacks
}

#[test]
fn a_game_runs_from_the_first_hit_to_the_last_explosion() {
    let mut store = Store::new();
    let mut bus = EventBus::new();
    let level = Single { bits: 0.5f32.to_bits() };
    let cast = setup(&mut store, [level; 3]);
    let mut bodies = RigidBodySet::new();
    let mut colliders = ColliderSet::new();
    let monster = collider_for(&mut bodies, &mut colliders, cast.monster, 10.0, 20.0);
    let alice = collider_for(&mut bodies, &mut colliders, cast.hunters[0], 60.0, 20.0);
    let charlie = collider_for(&mut bodies, &mut colliders, cast.hunters[2], -40.0, 20.0);

    // Four ticks with one hit each, and a quiet one in between.
    for (tick, hitter) in [alice, charlie, alice, alice].iter().enumerate() {
        let attacks = after_physics(
            &mut store,
            &mut bus,
            &colliders,
            &bodies,
            vec![ContactEvent::Started(monster, *hitter), ContactEvent::Stopped(monster, *hitter)],
        );
        assert_eq!(attacks.len(), 1);
        assert_eq!(store.get(cast.monster).unwrap().health, Some(80 - 20 * tick as u16));
        assert_eq!(after_physics(&mut store, &mut bus, &colliders, &bodies, vec![]), vec![]);
    }
    assert_eq!(ai_system(&store).unwrap().monster, cast.monster);
    assert_eq!(store.issued(), 4);

    // The fifth hit kills; two more contacts are queued on the same tick.
    let attacks = after_physics(
        &mut store,
        &mut bus,
        &colliders,
        &bodies,
        vec![
            ContactEvent::Started(monster, charlie),
            ContactEvent::Started(monster, alice),
            ContactEvent::Started(monster, charlie),
        ],
    );
    assert_eq!(attacks, vec![AttackEvent { score: 40, hunter_name: "Charlie" }]);
    assert!(!store.contains(cast.monster));
    assert_eq!(store.query(victim_shape()), vec![]);
    // The overlay, what follows the monster, and the explosion, in this order.
    assert_eq!(store.issued(), 7);
    assert_eq!(store.get(EntityId(4)), Some(overlay()));
    assert_eq!(store.get(EntityId(5)), Some(dead_monster()));
    let blast = store.get(EntityId(6)).unwrap();
    assert_eq!(blast.explosion.unwrap().kind, ExplosionKind::ShipDead);
    assert_eq!(blast.explosion.unwrap().elapsed, TICK);
    assert_eq!(blast.sprite.unwrap().x, Single { bits: 10.0f32.to_bits() });
    assert_eq!(blast.sprite.unwrap().y, Single { bits: 20.0f32.to_bits() });
    assert_eq!(store.single(monster_shape()), Some(EntityId(5)));
    assert_eq!(store.get(cast.hunters[0]).unwrap().score, Some(60));
    assert_eq!(store.get(cast.hunters[2]).unwrap().score, Some(40));

    // The bodies are still in the registries, but nothing can be hit any more.
    let mut scale = blast.sprite.unwrap().scale;
    let mut ticks = 1;
    while store.contains(EntityId(6)) {
        let attacks = after_physics(
            &mut store,
            &mut bus,
            &colliders,
            &bodies,
            vec![ContactEvent::Started(monster, alice)],
        );
        assert_eq!(attacks, vec![]);
        ticks += 1;
        if let Some(grown) = store.get(EntityId(6)) {
            assert!(grown.sprite.unwrap().scale >= scale);
            scale = grown.sprite.unwrap().scale;
        }
    }
    // Two and a half seconds, in ticks of a sixtieth of a second.
    assert_eq!(ticks, 150);
    assert!(scale > 198_000);
    assert_eq!(store.query(explosion_shape()), vec![]);
    assert_eq!(store.issued(), 7);
    assert_eq!(store.single(monster_shape()), Some(EntityId(5)));
}
