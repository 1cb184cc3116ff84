//! Health points and the changes that combat and wilting ask for.

use vstd::prelude::*;

verus! {

/// The health of one entity, in thousandths of a point.
#[derive(Clone, Copy, Debug, PartialEq, Eq, Structural)]
pub struct Health {
    pub current: u32,
    pub max: u32,
}

/// A request to change the health of `target` by `amount`: negative for
/// damage, positive for healing.
#[derive(Clone, Copy, Debug, PartialEq, Eq, Structural)]
pub struct HealthChange {
    pub target: u64,
    pub amount: i64,
}

/// What a change did to the entity that took it.
#[derive(Clone, Copy, Debug, PartialEq, Eq, Structural)]
pub struct Wound {
    /// The entity has no health left and is to be marked dead.
    pub dead: bool,
    /// The change was damage, and the entity is to flash.
    pub flash: bool,
}

impl Health {
    /// Health after a change of `amount`: capped at the maximum, and zero
    /// once it would be zero or less.
    pub open spec fn changed(self, amount: int) -> Health {
        let raw = self.current + amount;
        if raw > self.max {
            Health { current: self.max, max: self.max }
        } else if raw <= 0 {
            Health { current: 0, max: self.max }
        } else {
            Health { current: raw as u32, max: self.max }
        }
    }

    /// Whether a change of `amount` leaves no health: the change does not
    /// overshoot the maximum and brings the health to zero or below.
    pub open spec fn felled_by(self, amount: int) -> bool {
        self.current + amount <= self.max && self.current + amount <= 0
    }

    /// The share of the maximum that is left, in thousandths, rounded down.
    pub open spec fn share(self) -> int {
        self.current * 1000 / (self.max as int)
    }

    /// Full health of `amount`.
    pub fn new(amount: u32) -> (h: Health)
        ensures
            h == (Health { current: amount, max: amount }),
    {
        Health { current: amount, max: amount }
    }

    /// The share of the maximum that is left, in thousandths, rounded down.
    pub fn percentage(&self) -> (p: u64)
        requires
            self.max > 0,
        ensures
            p == self.share(),
    {
        self.current as u64 * 1000 / self.max as u64
    }

    /// Applies one change and reports whether the entity died of it and
    /// whether it is to flash.
    pub fn apply(&mut self, amount: i64) -> (wound: Wound)
        ensures
            *final(self) == old(self).changed(amount as int),
            wound.dead == old(self).felled_by(amount as int),
            wound.flash == (amount < 0),
    {
        let raw: i128 = self.current as i128 + amount as i128;
        let mut dead = false;
        if raw > self.max as i128 {
            self.current = self.max;
        } else if raw <= 0 {
            self.current = 0;
            dead = true;
        } else {
            self.current = raw as u32;
        }
        Wound { dead, flash: amount < 0 }
    }
}

/// The health of one entity of the arena.
#[derive(Clone, Copy, Debug, PartialEq, Eq, Structural)]
pub struct Vital {
    pub id: u64,
    pub health: Health,
}

/// The entity at index `i` is the first that bears `id`.
pub open spec fn is_slot(vitals: Seq<Vital>, id: u64, i: int) -> bool {
    &&& 0 <= i < vitals.len()
    &&& vitals[i].id == id
    &&& forall|j: int| 0 <= j < i ==> (#[trigger] vitals[j]).id != id
}

/// Where the entity `id` is found among those that have health: the index
/// of the first that bears the id, and none if it is gone.
pub open spec fn slot_of(vitals: Seq<Vital>, id: u64) -> Option<int> {
    if exists|i: int| is_slot(vitals, id, i) {
        Some(choose|i: int| is_slot(vitals, id, i))
    } else {
        None
    }
}

/// The first entity that bears an id is where the id is found.
pub proof fn lemma_slot_is(vitals: Seq<Vital>, id: u64, i: int)
    requires
        is_slot(vitals, id, i),
    ensures
        slot_of(vitals, id) == Some(i),
{
    let c = choose|c: int| is_slot(vitals, id, c);
    if c < i {
        assert(vitals[c].id != id);
    } else if i < c {
        assert(vitals[i].id != id);
    }
}

/// The entities after one change has been applied. A change whose target
/// is gone changes nothing.
pub open spec fn treated(vitals: Seq<Vital>, change: HealthChange) -> Seq<Vital> {
    match slot_of(vitals, change.target) {
        Some(i) => vitals.update(
            i,
            Vital { id: vitals[i].id, health: vitals[i].health.changed(change.amount as int) },
        ),
        None => vitals,
    }
}

/// What one change does to its target, and nothing if the target is
/// gone.
pub open spec fn wound_of(vitals: Seq<Vital>, change: HealthChange) -> Option<Wound> {
    match slot_of(vitals, change.target) {
        Some(i) => Some(
            Wound {
                dead: vitals[i].health.felled_by(change.amount as int),
                flash: change.amount < 0,
            },
        ),
        None => None,
    }
}

/// The entities after the first `n` of the changes have been applied in
/// order.
pub open spec fn treated_through(vitals: Seq<Vital>, changes: Seq<HealthChange>, n: int) -> Seq<
    Vital,
>
    decreases n,
{
    if n <= 0 {
        vitals
    } else {
        treated(treated_through(vitals, changes, n - 1), changes[n - 1])
    }
}

/// Finds the first entity that bears `id`.
fn find(vitals: &Vec<Vital>, id: u64) -> (found: Option<usize>)
    ensures
        match found {
            Some(i) => slot_of(vitals@, id) == Some(i as int) && i < vitals.len(),
            None => slot_of(vitals@, id) is None,
        },
{
    let mut i: usize = 0;
    while i < vitals.len()
        invariant
            0 <= i <= vitals.len(),
            forall|j: int| 0 <= j < i ==> (#[trigger] vitals[j]).id != id,
        decreases vitals.len() - i,
    {
        if vitals[i].id == id {
            proof {
                lemma_slot_is(vitals@, id, i as int);
            }
            return Some(i);
        }
        i = i + 1;
    }
    proof {
        assert forall|c: int| !is_slot(vitals@, id, c) by {
            if is_slot(vitals@, id, c) {
                assert(vitals[c].id != id);
            }
        }
    }
    None
}

/// Applies the changes of a tick, in order, to the entities that have
/// health. Returns, for each change, what it did to its target: whether
/// the target died of it and whether it is to flash, or nothing where the
/// target is gone.
///
/// An entity that has died stays in the list with no health left, and
/// later changes still reach it: taking the dead out is the caller's to
/// do between ticks.
pub fn update_health(vitals: &mut Vec<Vital>, changes: &Vec<HealthChange>) -> (wounds: Vec<
    Option<Wound>,
>)
    ensures
        final(vitals)@ == treated_through(old(vitals)@, changes@, changes.len() as int),
        final(vitals).len() == old(vitals).len(),
        wounds.len() == changes.len(),
        forall|k: int|
            0 <= k < changes.len() ==> #[trigger] wounds[k] == wound_of(
                treated_through(old(vitals)@, changes@, k),
                changes[k],
            ),
{
    let mut wounds: Vec<Option<Wound>> = Vec::new();
    let mut k: usize = 0;
    while k < changes.len()
        invariant
            0 <= k <= changes.len(),
            vitals@ == treated_through(old(vitals)@, changes@, k as int),
            vitals.len() == old(vitals).len(),
            wounds.len() == k,
            forall|j: int|
                0 <= j < k ==> #[trigger] wounds[j] == wound_of(
                    treated_through(old(vitals)@, changes@, j),
                    changes[j],
                ),
        decreases changes.len() - k,
    {
        let change = changes[k];
        let ghost before = vitals@;
        match find(vitals, change.target) {
            Some(i) => {
                let mut vital = vitals[i];
                let wound = vital.health.apply(change.amount);
                vitals[i] = vital;
                wounds.push(Some(wound));
            },
            None => {
                wounds.push(None);
            },
        }
        assert(vitals@ =~= treated(before, change));
        k = k + 1;
    }
    wounds
}

/// The flash of an entity that has just been hurt: how far it has faded,
/// in thousandths, from none to all.
#[derive(Clone, Copy, Debug, PartialEq, Eq, Structural)]
pub struct DamageFlash {
    pub amount: u32,
}

impl DamageFlash {
    /// How far the flash has faded once `dt` more microseconds have
    /// passed: it fades in a fifth of a second, and no further than all
    /// the way.
    pub open spec fn faded(self, dt: u64) -> u32 {
        if self.amount + dt / 200 >= 1000 {
            1000
        } else {
            (self.amount + dt / 200) as u32
        }
    }

    /// The tint of the flash, as the red, green and blue of the colour by
    /// which the entity's picture is multiplied, in thousandths: ten
    /// times red at first, plain white in the end.
    pub open spec fn tint(self) -> (int, int, int) {
        (10_000 - 9 * self.amount, self.amount as int, self.amount as int)
    }

    /// A flash that has just begun.
    pub fn new() -> (flash: DamageFlash)
        ensures
            flash.amount == 0,
    {
        DamageFlash { amount: 0 }
    }

    /// Lets `dt` microseconds pass. Returns the tint to show and whether
    /// the flash is over.
    pub fn update_damage_flash(&mut self, dt: u64) -> (shown: ((u32, u32, u32), bool))
        ensures
            final(self).amount == old(self).faded(dt),
            final(self).amount <= 1000,
            shown.0.0 == final(self).tint().0,
            shown.0.1 == final(self).tint().1,
            shown.0.2 == final(self).tint().2,
            shown.1 == (final(self).amount >= 1000),
    {
        let step: u64 = dt / 200;
        if step >= 1000 || self.amount as u64 + step >= 1000 {
            self.amount = 1000;
        } else {
            self.amount = self.amount + step as u32;
        }
        ((10_000 - 9 * self.amount, self.amount, self.amount), self.amount >= 1000)
    }
}

} // verus!
