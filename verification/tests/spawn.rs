use hunting_crustaceans::components::{Components, GameEnd};
use hunting_crustaceans::events::EventBus;
use hunting_crustaceans::single::Single;
use hunting_crustaceans::spawn::{
    dead_monster, game_ending, hunter, monster, setup, spawn_hunter, HUNTER_DAMAGE,
    MONSTER_HEALTH,
};
use hunting_crustaceans::steering::{ai_system, monster_shape, Pursuer, SteeringPlan};
use hunting_crustaceans::store::{EntityId, Store};

fn single(value: f32) -> Single {
    Single { bits: value.to_bits() }
}

#[test]
fn the_game_starts_with_a_monster_and_three_hunters() {
    let mut store = Store::new();
    let cast = setup(&mut store, [single(0.0), single(0.5), single(0.999)]);

    assert_eq!(cast.monster, EntityId(0));
    assert_eq!(cast.hunters, [EntityId(1), EntityId(2), EntityId(3)]);
    assert_eq!(store.issued(), 4);
    let beast = store.get(cast.monster).unwrap();
    assert_eq!(beast, monster());
    assert_eq!(beast.name, Some("Bevy"));
    assert_eq!(beast.health, Some(100));
    assert_eq!(MONSTER_HEALTH, 100);
    assert!(beast.monster && !beast.hunter);
    let names = ["Alice", "Bob", "Charlie"];
    let levels = [single(0.0), single(0.5), single(0.999)];
    for i in 0..3 {
        let found = store.get(cast.hunters[i]).unwrap();
        assert_eq!(found, hunter(names[i], levels[i]));
        assert_eq!(found.name, Some(names[i]));
        assert_eq!(found.damage, Some(20));
        assert_eq!(found.score, Some(0));
        assert_eq!(found.aggressiveness, Some(levels[i]));
        assert_eq!(found.health, None);
        assert!(found.hunter && !found.monster);
    }
    assert_eq!(HUNTER_DAMAGE, 20);
}

#[test]
fn hunters_can_be_spawned_on_their_own() {
    let mut store = Store::new();
    store.spawn(Components::none());
    let hunters = spawn_hunter(&mut store, [single(0.1), single(0.2), single(0.3)]);
    assert_eq!(hunters, [EntityId(1), EntityId(2), EntityId(3)]);
    assert_eq!(store.get(EntityId(2)), Some(hunter("Bob", single(0.2))));
    assert_eq!(store.single(monster_shape()), None);
}

#[test]
fn what_follows_the_monster_cannot_be_hit() {
    let follower = dead_monster();
    assert_eq!(follower.name, Some("DeadBevy"));
    assert_eq!(follower.health, None);
    assert!(follower.monster);
    assert!(!follower.fits(hunting_crustaceans::combat::victim_shape()));
    assert!(follower.fits(monster_shape()));
}

#[test]
fn the_end_of_the_game_brings_what_follows_the_monster() {
    let mut store = Store::new();
    let mut bus = EventBus::new();
    let cast = setup(&mut store, [single(0.5); 3]);
    assert_eq!(game_ending(&mut store, &mut bus), vec![]);
    assert_eq!(store.issued(), 4);

    store.despawn(cast.monster);
    bus.send_game_end(GameEnd {});
    let spawned = game_ending(&mut store, &mut bus);

    assert_eq!(spawned, vec![EntityId(4)]);
    assert_eq!(store.get(EntityId(4)), Some(dead_monster()));
    assert_eq!(bus.take_game_ends(), vec![]);
    assert_eq!(store.single(monster_shape()), Some(EntityId(4)));
    assert_eq!(game_ending(&mut store, &mut bus), vec![]);
}

#[test]
fn the_monster_and_the_hunters_are_steered() {
    let mut store = Store::new();
    let cast = setup(&mut store, [single(0.25), single(0.5), single(0.75)]);
    let mut stray = Components::none();
    stray.hunter = true;
    store.spawn(stray);

    let plan = ai_system(&store);

    assert_eq!(
        plan,
        Some(SteeringPlan {
            monster: cast.monster,
            pursuers: vec![
                Pursuer { hunter: cast.hunters[0], aggressiveness: single(0.25) },
                Pursuer { hunter: cast.hunters[1], aggressiveness: single(0.5) },
                Pursuer { hunter: cast.hunters[2], aggressiveness: single(0.75) },
            ],
        })
    );
}

#[test]
fn nobody_is_steered_without_exactly_one_monster() {
    let mut store = Store::new();
    let mut bus = EventBus::new();
    assert_eq!(ai_system(&store), None);
    let cast = setup(&mut store, [single(0.5); 3]);
    store.despawn(cast.monster);
    assert_eq!(ai_system(&store), None);

    bus.send_game_end(GameEnd {});
    let spawned = game_ending(&mut store, &mut bus);
    assert_eq!(ai_system(&store).unwrap().monster, spawned[0]);

    store.spawn(monster());
    assert_eq!(ai_system(&store), None);
}

#[test]
fn a_monster_without_hunters_is_steered_alone() {
    let mut store = Store::new();
    let beast = store.spawn(monster());
    assert_eq!(ai_system(&store), Some(SteeringPlan { monster: beast, pursuers: vec![] }));
}
