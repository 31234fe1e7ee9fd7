use crate::explosion::Explosion;
use crate::single::Single;
use vstd::prelude::*;

verus! {

/// What kind of explosion to show.
#[derive(Clone, Copy, Debug, PartialEq, Eq, Hash, Structural)]
pub enum ExplosionKind {
    ShipDead,
    ShipContact,
    LaserOnAsteroid,
}

/// Asks for an explosion of `kind` at the point (`x`, `y`).
#[derive(Clone, Copy, Debug, PartialEq, Eq, Structural)]
pub struct ExplosionSpawnEvent {
    pub kind: ExplosionKind,
    pub x: Single,
    pub y: Single,
}

/// Reports a hit: the attacker's name and its score after the hit.
#[derive(Clone, Copy, Debug, PartialEq, Eq)]
pub struct AttackEvent {
    pub score: u32,
    pub hunter_name: &'static str,
}

/// Marks the death of the monster.
#[derive(Clone, Copy, Debug, PartialEq, Eq, Structural)]
pub struct GameEnd {}

/// A point of the arena.
#[derive(Clone, Copy, Debug, PartialEq, Eq, Structural)]
pub struct Position {
    pub x: Single,
    pub y: Single,
}

/// What the renderer draws for an entity: where, and how large. The scale is in
/// millionths.
#[derive(Clone, Copy, Debug, PartialEq, Eq, Structural)]
pub struct Sprite {
    pub x: Single,
    pub y: Single,
    pub scale: u32,
}

/// The components of one entity. A component that is `None`, or a marker that
/// is `false`, is absent.
#[derive(Clone, Copy, Debug, PartialEq, Eq)]
pub struct Components {
    pub name: Option<&'static str>,
    pub health: Option<u16>,
    pub damage: Option<u16>,
    pub score: Option<u32>,
    pub aggressiveness: Option<Single>,
    pub monster: bool,
    pub hunter: bool,
    pub sprite: Option<Sprite>,
    pub explosion: Option<Explosion>,
}

/// One flag for each kind of component.
#[derive(Clone, Copy, Debug, PartialEq, Eq, Structural)]
pub struct Kinds {
    pub name: bool,
    pub health: bool,
    pub damage: bool,
    pub score: bool,
    pub aggressiveness: bool,
    pub monster: bool,
    pub hunter: bool,
    pub sprite: bool,
    pub explosion: bool,
}

/// The shape of a component set: the kinds that must be present and the kinds
/// that must be absent.
#[derive(Clone, Copy, Debug, PartialEq, Eq, Structural)]
pub struct Shape {
    pub with: Kinds,
    pub without: Kinds,
}

impl Kinds {
    /// No kind at all.
    pub open spec fn spec_none() -> Kinds {
        Kinds {
            name: false,
            health: false,
            damage: false,
            score: false,
            aggressiveness: false,
            monster: false,
            hunter: false,
            sprite: false,
            explosion: false,
        }
    }

    /// Whether every kind flagged in `self` is flagged in `other`.
    pub open spec fn within(self, other: Kinds) -> bool {
        &&& self.name ==> other.name
        &&& self.health ==> other.health
        &&& self.damage ==> other.damage
        &&& self.score ==> other.score
        &&& self.aggressiveness ==> other.aggressiveness
        &&& self.monster ==> other.monster
        &&& self.hunter ==> other.hunter
        &&& self.sprite ==> other.sprite
        &&& self.explosion ==> other.explosion
    }

    /// Whether no kind is flagged in both `self` and `other`.
    pub open spec fn apart_from(self, other: Kinds) -> bool {
        &&& !(self.name && other.name)
        &&& !(self.health && other.health)
        &&& !(self.damage && other.damage)
        &&& !(self.score && other.score)
        &&& !(self.aggressiveness && other.aggressiveness)
        &&& !(self.monster && other.monster)
        &&& !(self.hunter && other.hunter)
        &&& !(self.sprite && other.sprite)
        &&& !(self.explosion && other.explosion)
    }

    /// No kind at all.
    #[verifier::when_used_as_spec(spec_none)]
    pub fn none() -> (kinds: Kinds)
        ensures
            kinds == Kinds::spec_none(),
    {
        Kinds {
            name: false,
            health: false,
            damage: false,
            score: false,
            aggressiveness: false,
            monster: false,
            hunter: false,
            sprite: false,
            explosion: false,
        }
    }
}

impl Components {
    /// The empty component set.
    pub open spec fn spec_none() -> Components {
        Components {
            name: None,
            health: None,
            damage: None,
            score: None,
            aggressiveness: None,
            monster: false,
            hunter: false,
            sprite: None,
            explosion: None,
        }
    }

    /// The kinds of component that are present.
    pub open spec fn kinds(self) -> Kinds {
        Kinds {
            name: self.name is Some,
            health: self.health is Some,
            damage: self.damage is Some,
            score: self.score is Some,
            aggressiveness: self.aggressiveness is Some,
            monster: self.monster,
            hunter: self.hunter,
            sprite: self.sprite is Some,
            explosion: self.explosion is Some,
        }
    }

    /// Whether the set has the shape: all it requires, none of what it excludes.
    pub open spec fn spec_fits(self, shape: Shape) -> bool {
        shape.with.within(self.kinds()) && shape.without.apart_from(self.kinds())
    }

    /// The empty component set.
    #[verifier::when_used_as_spec(spec_none)]
    pub fn none() -> (components: Components)
        ensures
            components == Components::spec_none(),
    {
        Components {
            name: None,
            health: None,
            damage: None,
            score: None,
            aggressiveness: None,
            monster: false,
            hunter: false,
            sprite: None,
            explosion: None,
        }
    }

    /// Tells whether the set has the shape.
    #[verifier::when_used_as_spec(spec_fits)]
    pub fn fits(self, shape: Shape) -> (fits: bool)
        ensures
            fits == self.spec_fits(shape),
    {
        let with = shape.with;
        let without = shape.without;
        (!with.name || self.name.is_some())
            && (!with.health || self.health.is_some())
            && (!with.damage || self.damage.is_some())
            && (!with.score || self.score.is_some())
            && (!with.aggressiveness || self.aggressiveness.is_some())
            && (!with.monster || self.monster)
            && (!with.hunter || self.hunter)
            && (!with.sprite || self.sprite.is_some())
            && (!with.explosion || self.explosion.is_some())
            && !(without.name && self.name.is_some())
            && !(without.health && self.health.is_some())
            && !(without.damage && self.damage.is_some())
            && !(without.score && self.score.is_some())
            && !(without.aggressiveness && self.aggressiveness.is_some())
            && !(without.monster && self.monster)
            && !(without.hunter && self.hunter)
            && !(without.sprite && self.sprite.is_some())
            && !(without.explosion && self.explosion.is_some())
    }
}

} // verus!
