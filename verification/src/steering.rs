use crate::components::{Kinds, Position, Shape};
use crate::single::Single;
use crate::store::{EntityId, Store, StoreState};
use vstd::prelude::*;

verus! {

/// A hunter to steer, with the aggressiveness that scatters its pursuit.
#[derive(Clone, Copy, Debug, PartialEq, Eq, Structural)]
pub struct Pursuer {
    pub hunter: EntityId,
    pub aggressiveness: Single,
}

/// Who is steered on this tick: the monster, and the hunters that chase it.
#[derive(Debug, PartialEq, Eq)]
pub struct SteeringPlan {
    pub monster: EntityId,
    pub pursuers: Vec<Pursuer>,
}

/// What a hunter does about the monster on this tick.
#[derive(Clone, Copy, Debug, PartialEq, Eq, Structural)]
pub enum Pursuit {
    /// The hunter is where the monster is: there is no direction to take, and
    /// it stands still.
    Hold,
    /// The hunter heads for the monster.
    Chase,
}

/// Whether the two points are the same point.
pub open spec fn same_point(a: Position, b: Position) -> bool {
    a.x.same_number(b.x) && a.y.same_number(b.y)
}

/// What a hunter at `hunter_at` does about the monster at `monster_at`: it
/// holds where the two are the same point, and chases otherwise.
pub open spec fn pursuit_for(monster_at: Position, hunter_at: Position) -> Pursuit {
    if same_point(monster_at, hunter_at) {
        Pursuit::Hold
    } else {
        Pursuit::Chase
    }
}

/// The shape of the monster: marked as the monster, and no hunter.
pub open spec fn spec_monster_shape() -> Shape {
    Shape {
        with: Kinds {
            name: false,
            health: false,
            damage: false,
            score: false,
            aggressiveness: false,
            monster: true,
            hunter: false,
            sprite: false,
            explosion: false,
        },
        without: Kinds {
            name: false,
            health: false,
            damage: false,
            score: false,
            aggressiveness: false,
            monster: false,
            hunter: true,
            sprite: false,
            explosion: false,
        },
    }
}

/// The shape of a hunter that is steered: marked as a hunter, with an
/// aggressiveness, and no monster.
pub open spec fn spec_pursuer_shape() -> Shape {
    Shape {
        with: Kinds {
            name: false,
            health: false,
            damage: false,
            score: false,
            aggressiveness: true,
            monster: false,
            hunter: true,
            sprite: false,
            explosion: false,
        },
        without: Kinds {
            name: false,
            health: false,
            damage: false,
            score: false,
            aggressiveness: false,
            monster: true,
            hunter: false,
            sprite: false,
            explosion: false,
        },
    }
}

/// Whether `id` is the one entity of the store that has the shape.
pub open spec fn is_only(store: StoreState, id: EntityId, shape: Shape) -> bool {
    store.matches(id, shape) && forall|other: EntityId|
        store.matches(other, shape) ==> other == id
}

/// The shape of the monster.
#[verifier::when_used_as_spec(spec_monster_shape)]
pub fn monster_shape() -> (shape: Shape)
    ensures
        shape == spec_monster_shape(),
{
    let mut with = Kinds::none();
    with.monster = true;
    let mut without = Kinds::none();
    without.hunter = true;
    Shape { with, without }
}

/// The shape of a hunter that is steered.
#[verifier::when_used_as_spec(spec_pursuer_shape)]
pub fn pursuer_shape() -> (shape: Shape)
    ensures
        shape == spec_pursuer_shape(),
{
    let mut with = Kinds::none();
    with.hunter = true;
    with.aggressiveness = true;
    let mut without = Kinds::none();
    without.monster = true;
    Shape { with, without }
}

/// Decides what a hunter at `hunter_at` does about the monster at
/// `monster_at`.
pub fn pursuit(monster_at: Position, hunter_at: Position) -> (pursuit: Pursuit)
    ensures
        pursuit == pursuit_for(monster_at, hunter_at),
{
    if monster_at.x.equals(hunter_at.x) && monster_at.y.equals(hunter_at.y) {
        Pursuit::Hold
    } else {
        Pursuit::Chase
    }
}

/// A hunter at the very point of the monster holds: no direction is ever
/// worked out from two points that are the same.
pub proof fn lemma_same_point_holds(at: Position)
    requires
        !at.x.is_nan(),
        !at.y.is_nan(),
    ensures
        pursuit_for(at, at) == Pursuit::Hold,
{
}

/// Decides who is steered on this tick. Where the store holds exactly one
/// monster, that is the monster and every hunter that can be steered, by
/// rising identifier; where it holds none or several, nobody is steered.
pub fn ai_system(store: &Store) -> (plan: Option<SteeringPlan>)
    ensures
        plan is Some <==> exists|id: EntityId| is_only(store@, id, spec_monster_shape()),
        plan matches Some(plan) ==> {
            &&& is_only(store@, plan.monster, spec_monster_shape())
            &&& forall|id: EntityId|
                store@.matches(id, spec_pursuer_shape()) <==> exists|i: int|
                    0 <= i < plan.pursuers@.len() && (#[trigger] plan.pursuers@[i]).hunter == id
            &&& forall|i: int|
                0 <= i < plan.pursuers@.len() ==> Some(
                    (#[trigger] plan.pursuers@[i]).aggressiveness,
                ) == store@.live[plan.pursuers@[i].hunter].aggressiveness
            &&& forall|i: int, j: int|
                0 <= i < j < plan.pursuers@.len() ==> plan.pursuers@[i].hunter.0
                    < plan.pursuers@[j].hunter.0
        },
{
    let monster = match store.single(monster_shape()) {
        Some(monster) => monster,
        None => {
            proof {
                assert forall|id: EntityId| !is_only(store@, id, spec_monster_shape()) by {
                    if is_only(store@, id, spec_monster_shape()) {
                        let (a, b) = choose|a: EntityId, b: EntityId|
                            a != b && store@.matches(a, spec_monster_shape()) && store@.matches(
                                b,
                                spec_monster_shape(),
                            );
                        assert(a == id && b == id);
                    }
                }
            }
            return None;
        },
    };
    assert(is_only(store@, monster, spec_monster_shape()));
    let hunters = store.query(pursuer_shape());
    let mut pursuers: Vec<Pursuer> = Vec::new();
    let mut next: usize = 0;
    while next < hunters.len()
        invariant
            next <= hunters@.len(),
            pursuers@.len() == next,
            forall|id: EntityId|
                hunters@.contains(id) <==> store@.matches(id, spec_pursuer_shape()),
            forall|i: int| 0 <= i < next ==> (#[trigger] pursuers@[i]).hunter == hunters@[i],
            forall|i: int|
                0 <= i < next ==> Some((#[trigger] pursuers@[i]).aggressiveness)
                    == store@.live[hunters@[i]].aggressiveness,
        decreases hunters@.len() - next,
    {
        let hunter = hunters[next];
        assert(hunters@.contains(hunter));
        assert(store@.matches(hunter, spec_pursuer_shape()));
        let aggressiveness = store.get(hunter).unwrap().aggressiveness.unwrap();
        pursuers.push(Pursuer { hunter, aggressiveness });
        next = next + 1;
    }
    proof {
        assert forall|id: EntityId|
            store@.matches(id, spec_pursuer_shape()) <==> exists|i: int|
                0 <= i < pursuers@.len() && (#[trigger] pursuers@[i]).hunter == id by {
            if store@.matches(id, spec_pursuer_shape()) {
                assert(hunters@.contains(id));
                let i = choose|i: int| 0 <= i < hunters@.len() && hunters@[i] == id;
                assert(pursuers@[i].hunter == id);
            }
            if exists|i: int| 0 <= i < pursuers@.len() && (#[trigger] pursuers@[i]).hunter == id {
                let i = choose|i: int|
                    0 <= i < pursuers@.len() && (#[trigger] pursuers@[i]).hunter == id;
                assert(hunters@.contains(hunters@[i]));
            }
        }
    }
    Some(SteeringPlan { monster, pursuers })
}

} // verus!
