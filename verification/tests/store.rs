use hunting_crustaceans::components::{Components, Kinds, Shape};
use hunting_crustaceans::store::{EntityId, Store};

fn named(name: &'static str) -> Components {
    let mut components = Components::none();
    components.name = Some(name);
    components
}

fn with_name() -> Shape {
    let mut with = Kinds::none();
    with.name = true;
    Shape { with, without: Kinds::none() }
}

#[test]
fn a_new_store_is_empty() {
    let store = Store::new();
    assert_eq!(store.issued(), 0);
    assert!(!store.contains(EntityId(0)));
    assert_eq!(store.get(EntityId(0)), None);
    assert_eq!(store.query(with_name()), vec![]);
}

#[test]
fn spawn_hands_out_rising_identifiers() {
    let mut store = Store::new();
    assert_eq!(store.spawn(named("a")), EntityId(0));
    assert_eq!(store.spawn(named("b")), EntityId(1));
    assert_eq!(store.spawn(Components::none()), EntityId(2));
    assert_eq!(store.issued(), 3);
    assert_eq!(store.get(EntityId(1)), Some(named("b")));
    assert_eq!(store.get(EntityId(2)), Some(Components::none()));
    assert_eq!(store.get(EntityId(3)), None);
}

#[test]
fn despawning_twice_is_despawning_once() {
    let mut store = Store::new();
    let a = store.spawn(named("a"));
    let b = store.spawn(named("b"));
    assert!(store.despawn(a));
    let issued = store.issued();
    let left = store.get(b);
    assert!(!store.despawn(a));
    assert_eq!(store.issued(), issued);
    assert_eq!(store.get(a), None);
    assert_eq!(store.get(b), left);
    assert_eq!(store.query(with_name()), vec![b]);
}

#[test]
fn despawning_what_never_lived_changes_nothing() {
    let mut store = Store::new();
    let a = store.spawn(named("a"));
    assert!(!store.despawn(EntityId(5)));
    assert!(!store.despawn(EntityId(u64::MAX)));
    assert_eq!(store.issued(), 1);
    assert_eq!(store.get(a), Some(named("a")));
}

#[test]
fn a_despawned_identifier_is_never_handed_out_again() {
    let mut store = Store::new();
    let a = store.spawn(named("a"));
    store.despawn(a);
    let b = store.spawn(named("b"));
    assert_ne!(a, b);
    assert!(!store.contains(a));
    assert!(!store.update(a, named("again")));
    assert!(!store.contains(a));
    assert_eq!(store.get(b), Some(named("b")));
}

#[test]
fn update_replaces_the_components_of_a_live_entity() {
    let mut store = Store::new();
    let a = store.spawn(named("a"));
    let mut changed = named("a");
    changed.health = Some(3);
    assert!(store.update(a, changed));
    assert_eq!(store.get(a), Some(changed));
    // Detaching is updating with the component absent.
    assert!(store.update(a, Components::none()));
    assert_eq!(store.get(a).unwrap().name, None);
    assert!(!store.update(EntityId(9), changed));
    assert_eq!(store.issued(), 1);
}

#[test]
fn query_finds_by_shape_in_rising_order() {
    let mut store = Store::new();
    let mut monster = named("m");
    monster.monster = true;
    let mut hunter = named("h");
    hunter.hunter = true;
    let a = store.spawn(hunter);
    let b = store.spawn(monster);
    let c = store.spawn(Components::none());
    let d = store.spawn(hunter);
    store.despawn(a);

    assert_eq!(store.query(with_name()), vec![b, d]);
    let mut no_hunters = with_name();
    no_hunters.without.hunter = true;
    assert_eq!(store.query(no_hunters), vec![b]);
    let anything = Shape { with: Kinds::none(), without: Kinds::none() };
    assert_eq!(store.query(anything), vec![b, c, d]);
    let mut impossible = with_name();
    impossible.without.name = true;
    assert_eq!(store.query(impossible), vec![]);
}

#[test]
fn single_tells_none_from_one_from_many() {
    let mut store = Store::new();
    assert_eq!(store.single(with_name()), None);
    let a = store.spawn(named("a"));
    assert_eq!(store.single(with_name()), Some(a));
    let b = store.spawn(named("b"));
    assert_eq!(store.single(with_name()), None);
    store.despawn(a);
    assert_eq!(store.single(with_name()), Some(b));
}

#[test]
fn a_tag_leads_back_to_its_entity() {
    for id in [0u64, 1, 77, u64::MAX] {
        assert_eq!(EntityId::from_tag(EntityId(id).tag()), EntityId(id));
        assert_eq!(EntityId(id).tag(), id as u128);
    }
    // Only the low 64 bits of a tag count.
    assert_eq!(EntityId::from_tag((1u128 << 64) + 5), EntityId(5));
    assert_eq!(EntityId::from_tag(u128::MAX), EntityId(u64::MAX));
}

#[test]
fn fits_requires_and_excludes() {
    let mut components = Components::none();
    components.health = Some(1);
    components.hunter = true;
    let mut shape = Shape { with: Kinds::none(), without: Kinds::none() };
    assert!(components.fits(shape));
    shape.with.health = true;
    assert!(components.fits(shape));
    shape.with.damage = true;
    assert!(!components.fits(shape));
    shape.with.damage = false;
    shape.without.hunter = true;
    assert!(!components.fits(shape));
    shape.without.hunter = false;
    shape.without.monster = true;
    assert!(components.fits(shape));
}
