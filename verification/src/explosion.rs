use crate::components::{Components, ExplosionKind, ExplosionSpawnEvent, Kinds, Shape, Sprite};
use crate::events::{BusState, EventBus};
use crate::invariants::{carries_on, coherent, lemma_spawns_carry_on, lemma_tick_carries_on};
use crate::store::{EntityId, Store, StoreState};
use vstd::prelude::*;

verus! {

/// A running explosion: how long it has grown, how long it grows in all, and
/// the scales it grows between. Times are in nanoseconds, scales in millionths.
#[derive(Clone, Copy, Debug, PartialEq, Eq, Structural)]
pub struct Explosion {
    pub kind: ExplosionKind,
    pub elapsed: u64,
    pub duration: u64,
    pub start_scale: u32,
    pub end_scale: u32,
}

impl Explosion {
    /// A fresh explosion of `kind`. The death of a ship grows for two and a
    /// half seconds, from 6667 to 200000 millionths; a contact for half a
    /// second, from 3333 to 6667; a laser hit for half a second, from 6667 to
    /// 10000.
    pub open spec fn spec_of_kind(kind: ExplosionKind) -> Explosion {
        match kind {
            ExplosionKind::ShipDead => Explosion {
                kind,
                elapsed: 0,
                duration: 2_500_000_000,
                start_scale: 6_667,
                end_scale: 200_000,
            },
            ExplosionKind::ShipContact => Explosion {
                kind,
                elapsed: 0,
                duration: 500_000_000,
                start_scale: 3_333,
                end_scale: 6_667,
            },
            ExplosionKind::LaserOnAsteroid => Explosion {
                kind,
                elapsed: 0,
                duration: 500_000_000,
                start_scale: 6_667,
                end_scale: 10_000,
            },
        }
    }

    /// Whether the explosion has grown for as long as it grows.
    pub open spec fn spec_finished(self) -> bool {
        self.elapsed >= self.duration
    }

    /// The explosion `delta` nanoseconds later. The time it has grown never
    /// passes the time it grows in all, and a finished explosion stays as it is.
    pub open spec fn ticked(self, delta: u64) -> Explosion {
        if self.elapsed >= self.duration {
            self
        } else if self.elapsed + delta >= self.duration {
            Explosion { elapsed: self.duration, ..self }
        } else {
            Explosion { elapsed: (self.elapsed + delta) as u64, ..self }
        }
    }

    /// The scale of the explosion now: the start scale, moved towards the end
    /// scale by the share of its time that it has grown, in whole millionths
    /// and never past the exact value; the end scale once it is finished.
    pub open spec fn spec_scale(self) -> int {
        if self.elapsed >= self.duration {
            self.end_scale as int
        } else if self.end_scale >= self.start_scale {
            self.start_scale + ((self.end_scale - self.start_scale) * self.elapsed)
                / (self.duration as int)
        } else {
            self.start_scale - ((self.start_scale - self.end_scale) * self.elapsed)
                / (self.duration as int)
        }
    }

    /// A fresh explosion of `kind`.
    #[verifier::when_used_as_spec(spec_of_kind)]
    pub fn of_kind(kind: ExplosionKind) -> (explosion: Explosion)
        ensures
            explosion == Explosion::spec_of_kind(kind),
    {
        match kind {
            ExplosionKind::ShipDead => Explosion {
                kind,
                elapsed: 0,
                duration: 2_500_000_000,
                start_scale: 6_667,
                end_scale: 200_000,
            },
            ExplosionKind::ShipContact => Explosion {
                kind,
                elapsed: 0,
                duration: 500_000_000,
                start_scale: 3_333,
                end_scale: 6_667,
            },
            ExplosionKind::LaserOnAsteroid => Explosion {
                kind,
                elapsed: 0,
                duration: 500_000_000,
                start_scale: 6_667,
                end_scale: 10_000,
            },
        }
    }

    /// Tells whether the explosion has grown for as long as it grows.
    #[verifier::when_used_as_spec(spec_finished)]
    pub fn finished(self) -> (finished: bool)
        ensures
            finished == self.spec_finished(),
    {
        self.elapsed >= self.duration
    }

    /// Lets `delta` nanoseconds pass.
    pub fn tick(&mut self, delta: u64)
        ensures
            *final(self) == old(self).ticked(delta),
    {
        if self.elapsed < self.duration {
            if delta >= self.duration - self.elapsed {
                self.elapsed = self.duration;
            } else {
                self.elapsed = self.elapsed + delta;
            }
        }
    }

    /// The scale of the explosion now, which lies between its start scale and
    /// its end scale.
    pub fn scale(self) -> (scale: u32)
        ensures
            scale == self.spec_scale(),
            self.start_scale <= scale <= self.end_scale || self.end_scale <= scale
                <= self.start_scale,
    {
        if self.elapsed >= self.duration {
            return self.end_scale;
        }
        let rising = self.end_scale >= self.start_scale;
        let span: u128 = if rising {
            (self.end_scale - self.start_scale) as u128
        } else {
            (self.start_scale - self.end_scale) as u128
        };
        let elapsed: u128 = self.elapsed as u128;
        let duration: u128 = self.duration as u128;
        proof {
            lemma_share_bounds(span as int, elapsed as int, duration as int);
        }
        let moved: u128 = span * elapsed / duration;
        if rising {
            self.start_scale + (moved as u32)
        } else {
            self.start_scale - (moved as u32)
        }
    }
}

/// The share `elapsed / duration` of `span`, rounded down, is at most `span`,
/// and computing it stays below 2^96.
proof fn lemma_share_bounds(span: int, elapsed: int, duration: int)
    requires
        0 <= span < 0x1_0000_0000,
        0 <= elapsed < duration < 0x1_0000_0000_0000_0000,
    ensures
        0 <= span * elapsed <= span * duration,
        span * elapsed < 0x1_0000_0000_0000_0000_0000_0000,
        0 <= (span * elapsed) / duration <= span,
{
    assert(0 <= span * elapsed <= span * duration) by (nonlinear_arith)
        requires
            0 <= span,
            0 <= elapsed < duration,
    ;
    assert(span * duration < 0x1_0000_0000 * 0x1_0000_0000_0000_0000) by (nonlinear_arith)
        requires
            0 <= span < 0x1_0000_0000,
            0 < duration < 0x1_0000_0000_0000_0000,
    ;
    assert(0 <= (span * elapsed) / duration <= span) by (nonlinear_arith)
        requires
            0 <= span * elapsed <= span * duration,
            0 < duration,
    ;
}

/// The shape of an explosion that is drawn: it has a sprite and runs.
pub open spec fn spec_explosion_shape() -> Shape {
    Shape {
        with: Kinds {
            name: false,
            health: false,
            damage: false,
            score: false,
            aggressiveness: false,
            monster: false,
            hunter: false,
            sprite: true,
            explosion: true,
        },
        without: Kinds::spec_none(),
    }
}

/// The component set of the explosion that `event` asks for: it is drawn where
/// the event says, at the start scale of its kind.
pub open spec fn spec_explosion_components(event: ExplosionSpawnEvent) -> Components {
    Components {
        name: None,
        health: None,
        damage: None,
        score: None,
        aggressiveness: None,
        monster: false,
        hunter: false,
        sprite: Some(
            Sprite { x: event.x, y: event.y, scale: Explosion::spec_of_kind(event.kind).start_scale },
        ),
        explosion: Some(Explosion::spec_of_kind(event.kind)),
    }
}

/// The store after one explosion was spawned for each event of `events`,
/// oldest first.
pub open spec fn after_spawns(store: StoreState, events: Seq<ExplosionSpawnEvent>) -> StoreState
    decreases events.len(),
{
    if events.len() == 0 {
        store
    } else {
        after_spawns(store, events.drop_last()).spawn(spec_explosion_components(events.last()))
    }
}

/// What a tick of `delta` nanoseconds makes of a drawn explosion: nothing once
/// it is finished, else the same entity, grown older and drawn at its new scale.
pub open spec fn stepped(components: Components, delta: u64) -> Option<Components>
    recommends
        components.fits(spec_explosion_shape()),
{
    let explosion = components.explosion->0.ticked(delta);
    let sprite = components.sprite->0;
    if explosion.spec_finished() {
        None
    } else {
        Some(
            Components {
                sprite: Some(
                    Sprite { x: sprite.x, y: sprite.y, scale: explosion.spec_scale() as u32 },
                ),
                explosion: Some(explosion),
                ..components
            },
        )
    }
}

/// The store after a tick of `delta` nanoseconds: each drawn explosion has
/// grown or gone, and every other entity is as it was.
pub open spec fn after_tick(store: StoreState, delta: u64) -> StoreState {
    StoreState {
        live: Map::new(
            |id: EntityId|
                store.live.contains_key(id) && (store.live[id].fits(spec_explosion_shape())
                    ==> stepped(store.live[id], delta) is Some),
            |id: EntityId|
                if store.live[id].fits(spec_explosion_shape()) {
                    stepped(store.live[id], delta)->0
                } else {
                    store.live[id]
                },
        ),
        issued: store.issued,
    }
}

/// The shape of an explosion that is drawn.
#[verifier::when_used_as_spec(spec_explosion_shape)]
pub fn explosion_shape() -> (shape: Shape)
    ensures
        shape == spec_explosion_shape(),
{
    let mut with = Kinds::none();
    with.sprite = true;
    with.explosion = true;
    Shape { with, without: Kinds::none() }
}

/// The component set of the explosion that `event` asks for.
#[verifier::when_used_as_spec(spec_explosion_components)]
pub fn explosion_components(event: ExplosionSpawnEvent) -> (components: Components)
    ensures
        components == spec_explosion_components(event),
{
    let explosion = Explosion::of_kind(event.kind);
    let mut components = Components::none();
    components.sprite = Some(Sprite { x: event.x, y: event.y, scale: explosion.start_scale });
    components.explosion = Some(explosion);
    components
}

/// Takes the explosion requests from the bus and spawns one explosion for
/// each, oldest first. Returns the new entities in the order of the requests.
/// This carries the store on and keeps the rule of the game.
pub fn spawn_explosion_event(store: &mut Store, bus: &mut EventBus) -> (spawned: Vec<EntityId>)
    ensures
        final(store)@ == after_spawns(old(store)@, old(bus)@.explosions),
        carries_on(old(store)@, final(store)@),
        coherent(old(store)@, old(bus)@) ==> coherent(final(store)@, final(bus)@),
        final(bus)@ == (BusState {
            explosions: Seq::empty(),
            attacks: old(bus)@.attacks,
            game_ends: old(bus)@.game_ends,
        }),
        spawned@.len() == old(bus)@.explosions.len(),
        forall|i: int| 0 <= i < spawned@.len() ==> spawned@[i].0 == old(store)@.issued + i,
{
    let events = bus.take_explosions();
    proof {
        store.lemma_view_wf();
    }
    let mut spawned: Vec<EntityId> = Vec::new();
    let mut next: usize = 0;
    while next < events.len()
        invariant
            next <= events@.len(),
            old(store)@.wf(),
            store@ == after_spawns(old(store)@, events@.take(next as int)),
            store@.issued == old(store)@.issued + next,
            spawned@.len() == next,
            forall|i: int| 0 <= i < next ==> spawned@[i].0 == old(store)@.issued + i,
        decreases events@.len() - next,
    {
        proof {
            assert(events@.take(next + 1).drop_last() == events@.take(next as int));
            assert(events@.take(next + 1).last() == events@[next as int]);
        }
        let id = store.spawn(explosion_components(events[next]));
        spawned.push(id);
        next = next + 1;
    }
    proof {
        assert(events@.take(next as int) == events@);
        store.lemma_view_wf();
        lemma_spawns_carry_on(old(store)@, old(bus)@, events@);
        lemma_spawns_carry_on(old(store)@, bus@, events@);
    }
    spawned
}

/// Lets `delta` nanoseconds pass for every drawn explosion: one that is
/// finished by then is despawned, and every other is drawn at its new scale.
/// This carries the store on and keeps the rule of the game, whatever the bus
/// holds.
pub fn handle_explosion(store: &mut Store, delta: u64)
    ensures
        final(store)@ == after_tick(old(store)@, delta),
        carries_on(old(store)@, final(store)@),
        forall|bus: BusState| coherent(old(store)@, bus) ==> #[trigger] coherent(final(store)@, bus),
{
    proof {
        store.lemma_view_wf();
    }
    let ghost before = store@;
    let ghost after = after_tick(before, delta);
    let issued = store.issued();
    let mut next: u64 = 0;
    while next < issued
        invariant
            next <= issued,
            before.wf(),
            issued == before.issued,
            store@.issued == before.issued,
            after == after_tick(before, delta),
            forall|id: EntityId|
                id.0 < next ==> (#[trigger] store@.live.contains_key(id)
                    <==> after.live.contains_key(id)),
            forall|id: EntityId|
                id.0 < next && #[trigger] store@.live.contains_key(id) ==> store@.live[id]
                    == after.live[id],
            forall|id: EntityId|
                id.0 >= next ==> (#[trigger] store@.live.contains_key(id)
                    <==> before.live.contains_key(id)),
            forall|id: EntityId|
                id.0 >= next && #[trigger] store@.live.contains_key(id) ==> store@.live[id]
                    == before.live[id],
        decreases issued - next,
    {
        let id = EntityId(next);
        match store.get(id) {
            Some(components) => {
                if components.fits(explosion_shape()) {
                    let mut explosion = components.explosion.unwrap();
                    explosion.tick(delta);
                    if explosion.finished() {
                        store.despawn(id);
                    } else {
                        let sprite = components.sprite.unwrap();
                        let mut grown = components;
                        grown.sprite = Some(
                            Sprite { x: sprite.x, y: sprite.y, scale: explosion.scale() },
                        );
                        grown.explosion = Some(explosion);
                        store.update(id, grown);
                    }
                }
            },
            None => {},
        }
        next = next + 1;
    }
    proof {
        store.lemma_view_wf();
        assert(store@.live =~= after.live);
        assert forall|bus: BusState| coherent(before, bus) implies #[trigger] coherent(
            after,
            bus,
        ) by {
            lemma_tick_carries_on(before, bus, delta);
        }
        lemma_tick_carries_on(before, BusState::empty(), delta);
    }
}

} // verus!
