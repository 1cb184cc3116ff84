//! Whom a unit goes for: the choice among the living entities in reach.
//!
//! The entities are handed in as a list of sightings, one for each entity
//! that is alive at this tick, in the order in which they were found. A
//! target that is not in the list is gone.

use vstd::prelude::*;
use crate::geometry::Point;
use crate::unit::Faction;

verus! {

/// One living entity as the units see it at this tick.
#[derive(Clone, Copy, Debug, PartialEq, Eq, Structural)]
pub struct Sighting {
    pub id: u64,
    pub pos: Point,
    pub faction: Faction,
    /// The entity is the home base, which is preferred to any other
    /// target.
    pub high_value: bool,
}

/// What a unit looks for: entities of `faction` within `radius` of
/// `origin` that are closer than `leash_range` to `leash_origin`.
#[derive(Clone, Copy, Debug, PartialEq, Eq, Structural)]
pub struct Search {
    pub origin: Point,
    pub radius: u32,
    pub leash_origin: Point,
    pub leash_range: u32,
    pub faction: Faction,
}

/// The sighting answers the search: it is of the faction sought, within
/// the radius, the rim included, and closer to the leash's origin than the
/// leash is long.
pub open spec fn eligible(s: Sighting, search: Search) -> bool {
    &&& s.faction == search.faction
    &&& search.origin.within(s.pos, search.radius)
    &&& search.leash_origin.inside(s.pos, search.leash_range)
}

/// `a` is a better target than `b` for a unit at `origin`: it is the home
/// base and `b` is not, or neither has that over the other and `a` is
/// closer.
///
/// That the home base wins over nearer targets is a rule of the game and
/// open to tuning; this is the one place that states it.
pub open spec fn preferred(a: Sighting, b: Sighting, origin: Point) -> bool {
    ||| a.high_value && !b.high_value
    ||| a.high_value == b.high_value && origin.dist_sq(a.pos) < origin.dist_sq(b.pos)
}

/// Among the first `n` sightings, the one at `i` is the target: it
/// answers the search, none that answers it is better, and it is better
/// than all that answer it and were found before it.
pub open spec fn leads(entities: Seq<Sighting>, search: Search, n: int, i: int) -> bool {
    &&& 0 <= i < n <= entities.len()
    &&& eligible(entities[i], search)
    &&& forall|j: int|
        0 <= j < n && #[trigger] eligible(entities[j], search) ==> {
            &&& !preferred(entities[j], entities[i], search.origin)
            &&& j < i ==> preferred(entities[i], entities[j], search.origin)
        }
}

/// The sighting at `i` is the target of the search: the best that answers
/// it, and of several that are equally good the first found.
pub open spec fn is_choice(entities: Seq<Sighting>, search: Search, i: int) -> bool {
    leads(entities, search, entities.len() as int, i)
}

/// The id of the target of the search, if any sighting answers it.
pub open spec fn chosen(entities: Seq<Sighting>, search: Search) -> Option<u64> {
    if exists|i: int| is_choice(entities, search, i) {
        Some(entities[choose|i: int| is_choice(entities, search, i)].id)
    } else {
        None
    }
}

/// The sighting at `i` is the first that bears `id`.
pub open spec fn is_first(entities: Seq<Sighting>, id: u64, i: int) -> bool {
    &&& 0 <= i < entities.len()
    &&& entities[i].id == id
    &&& forall|j: int| 0 <= j < i ==> (#[trigger] entities[j]).id != id
}

/// Where the entity `id` is, if it is among the living: the position of
/// the first sighting that bears the id.
pub open spec fn position_of(entities: Seq<Sighting>, id: u64) -> Option<Point> {
    if exists|i: int| is_first(entities, id, i) {
        Some(entities[choose|i: int| is_first(entities, id, i)].pos)
    } else {
        None
    }
}

/// At most one sighting is the target of a search.
pub proof fn lemma_choice_unique(entities: Seq<Sighting>, search: Search, i: int, j: int)
    requires
        is_choice(entities, search, i),
        is_choice(entities, search, j),
    ensures
        i == j,
{
    if i < j {
        assert(eligible(entities[i], search));
        assert(preferred(entities[j], entities[i], search.origin));
    } else if j < i {
        assert(eligible(entities[j], search));
        assert(preferred(entities[i], entities[j], search.origin));
    }
}

/// The sighting that is the target of a search gives the search its
/// result.
pub proof fn lemma_chosen_is(entities: Seq<Sighting>, search: Search, i: int)
    requires
        is_choice(entities, search, i),
    ensures
        chosen(entities, search) == Some(entities[i].id),
{
    let c = choose|c: int| is_choice(entities, search, c);
    lemma_choice_unique(entities, search, c, i);
}

/// The first sighting that bears an id says where the entity is.
pub proof fn lemma_position_is(entities: Seq<Sighting>, id: u64, i: int)
    requires
        is_first(entities, id, i),
    ensures
        position_of(entities, id) == Some(entities[i].pos),
{
    let c = choose|c: int| is_first(entities, id, c);
    if c < i {
        assert(entities[c].id != id);
    } else if i < c {
        assert(entities[i].id != id);
    }
}

/// A search has a target exactly when some sighting answers it, and the
/// target then answers it.
pub proof fn lemma_chosen_answers(entities: Seq<Sighting>, search: Search)
    ensures
        chosen(entities, search) is None ==> forall|i: int|
            0 <= i < entities.len() ==> !#[trigger] eligible(entities[i], search),
        chosen(entities, search) is Some ==> exists|i: int|
            0 <= i < entities.len() && #[trigger] eligible(entities[i], search) && entities[i].id
                == chosen(entities, search)->0,
{
    if chosen(entities, search) is None {
        assert forall|i: int| 0 <= i < entities.len() implies !#[trigger] eligible(
            entities[i],
            search,
        ) by {
            if eligible(entities[i], search) {
                let n = entities.len() as int;
                lemma_some_choice(entities, search, n, i);
                let b = choose|b: int| leads(entities, search, n, b);
                assert(is_choice(entities, search, b));
            }
        }
    } else {
        let c = choose|i: int| is_choice(entities, search, i);
        assert(eligible(entities[c], search));
    }
}

/// If a sighting among the first `n` answers the search, one of them
/// leads.
proof fn lemma_some_choice(entities: Seq<Sighting>, search: Search, n: int, witness: int)
    requires
        0 <= witness < n <= entities.len(),
        eligible(entities[witness], search),
    ensures
        exists|i: int| leads(entities, search, n, i),
    decreases n,
{
    let m = n - 1;
    let last = entities[m];
    if exists|w: int| 0 <= w < m && #[trigger] eligible(entities[w], search) {
        let w = choose|w: int| 0 <= w < m && #[trigger] eligible(entities[w], search);
        lemma_some_choice(entities, search, m, w);
        let b = choose|i: int| leads(entities, search, m, i);
        if eligible(last, search) && preferred(last, entities[b], search.origin) {
            assert(leads(entities, search, n, m));
        } else {
            assert(leads(entities, search, n, b));
        }
    } else {
        assert(witness == m);
        assert(leads(entities, search, n, m));
    }
}

/// Picks the target of a unit at `origin` that looks `radius` far for
/// entities of `faction` and is leashed to `leash_origin`.
///
/// Of the sightings that answer the search the home base wins; otherwise
/// the nearest does, and of several equally near the first found. None is
/// returned exactly when no sighting answers the search.
pub fn select_target(
    entities: &Vec<Sighting>,
    origin: Point,
    radius: u32,
    leash_origin: Point,
    leash_range: u32,
    faction: Faction,
) -> (target: Option<u64>)
    ensures
        target == chosen(
            entities@,
            Search { origin, radius, leash_origin, leash_range, faction },
        ),
{
    let ghost search = Search { origin, radius, leash_origin, leash_range, faction };
    let mut best: Option<usize> = None;
    let mut best_dist: u128 = 0;
    let mut best_high: bool = false;
    let mut i: usize = 0;
    while i < entities.len()
        invariant
            0 <= i <= entities.len(),
            search == (Search { origin, radius, leash_origin, leash_range, faction }),
            match best {
                None => forall|j: int| 0 <= j < i ==> !#[trigger] eligible(entities[j], search),
                Some(b) => {
                    &&& leads(entities@, search, i as int, b as int)
                    &&& best_dist == origin.dist_sq(entities[b as int].pos)
                    &&& best_high == entities[b as int].high_value
                },
            },
        decreases entities.len() - i,
    {
        let s = entities[i];
        if s.faction == faction && origin.is_within(&s.pos, radius) && leash_origin.is_inside(
            &s.pos,
            leash_range,
        ) {
            let dist: u128 = origin.distance_squared(&s.pos);
            let better = match best {
                None => true,
                Some(_) => (s.high_value && !best_high) || (s.high_value == best_high && dist
                    < best_dist),
            };
            if better {
                best = Some(i);
                best_dist = dist;
                best_high = s.high_value;
            }
        }
        i = i + 1;
    }
    match best {
        None => {
            proof {
                assert forall|c: int| !is_choice(entities@, search, c) by {
                    if is_choice(entities@, search, c) {
                        assert(eligible(entities[c], search));
                    }
                }
            }
            None
        },
        Some(b) => {
            proof {
                lemma_chosen_is(entities@, search, b as int);
            }
            Some(entities[b].id)
        },
    }
}

/// Looks an entity up among the living. None means that it is gone.
pub fn locate(entities: &Vec<Sighting>, id: u64) -> (pos: Option<Point>)
    ensures
        pos == position_of(entities@, id),
{
    let mut i: usize = 0;
    while i < entities.len()
        invariant
            0 <= i <= entities.len(),
            forall|j: int| 0 <= j < i ==> (#[trigger] entities[j]).id != id,
        decreases entities.len() - i,
    {
        if entities[i].id == id {
            proof {
                lemma_position_is(entities@, id, i as int);
            }
            return Some(entities[i].pos);
        }
        i = i + 1;
    }
    proof {
        assert forall|c: int| !is_first(entities@, id, c) by {
            if is_first(entities@, id, c) {
                assert(entities[c].id != id);
            }
        }
    }
    None
}

} // verus!
