use crate::components::{AttackEvent, ExplosionSpawnEvent, GameEnd};
use vstd::prelude::*;

verus! {

/// What an [`EventBus`] holds: the events of each stream, oldest first.
pub struct BusState {
    pub explosions: Seq<ExplosionSpawnEvent>,
    pub attacks: Seq<AttackEvent>,
    pub game_ends: Seq<GameEnd>,
}

impl BusState {
    /// The bus with nothing in any stream.
    pub open spec fn empty() -> BusState {
        BusState { explosions: Seq::empty(), attacks: Seq::empty(), game_ends: Seq::empty() }
    }
}

/// Three independent streams of events. A producer appends to a stream and
/// never waits; the consumer of a stream takes all of it, oldest first, once a
/// tick, and what is left at the end of a tick is discarded.
pub struct EventBus {
    explosions: Vec<ExplosionSpawnEvent>,
    attacks: Vec<AttackEvent>,
    game_ends: Vec<GameEnd>,
}

impl View for EventBus {
    type V = BusState;

    closed spec fn view(&self) -> BusState {
        BusState {
            explosions: self.explosions@,
            attacks: self.attacks@,
            game_ends: self.game_ends@,
        }
    }
}

impl EventBus {
    /// A bus with nothing in any stream.
    pub fn new() -> (bus: EventBus)
        ensures
            bus@ == BusState::empty(),
    {
        EventBus { explosions: Vec::new(), attacks: Vec::new(), game_ends: Vec::new() }
    }

    /// Appends to the stream of explosion requests.
    pub fn send_explosion(&mut self, event: ExplosionSpawnEvent)
        ensures
            final(self)@ == (BusState {
                explosions: old(self)@.explosions.push(event),
                attacks: old(self)@.attacks,
                game_ends: old(self)@.game_ends,
            }),
    {
        self.explosions.push(event);
    }

    /// Appends to the stream of attacks.
    pub fn send_attack(&mut self, event: AttackEvent)
        ensures
            final(self)@ == (BusState {
                explosions: old(self)@.explosions,
                attacks: old(self)@.attacks.push(event),
                game_ends: old(self)@.game_ends,
            }),
    {
        self.attacks.push(event);
    }

    /// Appends to the stream of game ends.
    pub fn send_game_end(&mut self, event: GameEnd)
        ensures
            final(self)@ == (BusState {
                explosions: old(self)@.explosions,
                attacks: old(self)@.attacks,
                game_ends: old(self)@.game_ends.push(event),
            }),
    {
        self.game_ends.push(event);
    }

    /// Takes the explosion requests, oldest first, and leaves that stream empty.
    pub fn take_explosions(&mut self) -> (events: Vec<ExplosionSpawnEvent>)
        ensures
            events@ == old(self)@.explosions,
            final(self)@ == (BusState {
                explosions: Seq::empty(),
                attacks: old(self)@.attacks,
                game_ends: old(self)@.game_ends,
            }),
    {
        let mut events: Vec<ExplosionSpawnEvent> = Vec::new();
        core::mem::swap(&mut events, &mut self.explosions);
        events
    }

    /// Takes the attacks, oldest first, and leaves that stream empty.
    pub fn take_attacks(&mut self) -> (events: Vec<AttackEvent>)
        ensures
            events@ == old(self)@.attacks,
            final(self)@ == (BusState {
                explosions: old(self)@.explosions,
                attacks: Seq::empty(),
                game_ends: old(self)@.game_ends,
            }),
    {
        let mut events: Vec<AttackEvent> = Vec::new();
        core::mem::swap(&mut events, &mut self.attacks);
        events
    }

    /// Takes the game ends, oldest first, and leaves that stream empty.
    pub fn take_game_ends(&mut self) -> (events: Vec<GameEnd>)
        ensures
            events@ == old(self)@.game_ends,
            final(self)@ == (BusState {
                explosions: old(self)@.explosions,
                attacks: old(self)@.attacks,
                game_ends: Seq::empty(),
            }),
    {
        let mut events: Vec<GameEnd> = Vec::new();
        core::mem::swap(&mut events, &mut self.game_ends);
        events
    }

    /// Discards what is left in every stream: nothing outlives a tick.
    pub fn clear(&mut self)
        ensures
            final(self)@ == BusState::empty(),
    {
        self.explosions.clear();
        self.attacks.clear();
        self.game_ends.clear();
    }
}

} // verus!
