//! The units of the arena together: what one tick does to all of them.
//!
//! Each function here is one pass over the units. The order of the passes
//! within a tick is the caller's: orders first, then the re-evaluation of
//! every unit against one list of the living, then movement, then the
//! strikes.

use vstd::prelude::*;
use crate::geometry::Point;
use crate::health::HealthChange;
use crate::plot::Crop;
use crate::target::Sighting;
use crate::unit::{Faction, Steering, Unit, UnitCommand};

verus! {

/// A blow that `attacker` means to deal.
#[derive(Clone, Copy, Debug, PartialEq, Eq, Structural)]
pub struct Strike {
    pub attacker: u64,
    pub target: u64,
    /// The change in the target's health: negative.
    pub amount: i64,
}

/// One unit of the arena with what the rules read of it besides its own
/// state.
#[derive(Clone, Copy, Debug, PartialEq, Eq, Structural)]
pub struct Agent {
    pub id: u64,
    pub faction: Faction,
    pub pos: Point,
    /// The unit is among those that the player has selected.
    pub selected: bool,
    pub unit: Unit,
}

/// A crop unit that wilts as it lives.
#[derive(Clone, Copy, Debug, PartialEq, Eq, Structural)]
pub struct Wilting {
    pub id: u64,
    pub crop: Crop,
}

impl Agent {
    /// The agent after its unit has re-evaluated its state.
    pub open spec fn stepped(self, entities: Seq<Sighting>) -> Agent {
        Agent { unit: self.unit.step(self.pos, self.faction, entities), ..self }
    }

    /// The agent after a tick of `dt` microseconds.
    pub open spec fn after_tick(self, dt: u64) -> Agent {
        Agent { unit: self.unit.after_tick(dt), ..self }
    }

    /// The agent once `command` has gone out to the selected units.
    pub open spec fn ordered(self, command: Option<UnitCommand>) -> Agent {
        if command is Some && self.selected {
            Agent { unit: Unit { command, ..self.unit }, ..self }
        } else {
            self
        }
    }
}

/// The order that the player's input of this tick stands for: a right
/// click to move to the pointer, else the attack key to attack-move there,
/// else none.
pub open spec fn command_of(right_click: bool, attack_key: bool, cursor: Point) -> Option<
    UnitCommand,
> {
    if right_click {
        Some(UnitCommand::Move(cursor))
    } else if attack_key {
        Some(UnitCommand::AttackMove(cursor))
    } else {
        None
    }
}

/// The strikes that the first `n` agents mean to deal in a tick of `dt`
/// microseconds, in the agents' order.
pub open spec fn strikes_before(agents: Seq<Agent>, dt: u64, n: int) -> Seq<Strike>
    decreases n,
{
    if n <= 0 {
        Seq::empty()
    } else {
        let earlier = strikes_before(agents, dt, n - 1);
        match agents[n - 1].unit.blow(dt) {
            Some(change) => earlier.push(
                Strike { attacker: agents[n - 1].id, target: change.target, amount: change.amount },
            ),
            None => earlier,
        }
    }
}

/// Health that a living crop unit of the kind loses in `dt` microseconds:
/// its full health spread evenly over the crop's grow and decay times,
/// rounded down, as a change of health.
pub open spec fn wilt(crop: Crop, dt: u64) -> int {
    -((dt * crop.max_health()) / (crop.grow_time() + crop.decay_time()))
}

/// Turns the player's input of this tick into an order and hands it to
/// every selected unit, replacing whatever order the unit had. Without
/// input no unit's order changes.
pub fn process_command(
    agents: &mut Vec<Agent>,
    right_click: bool,
    attack_key: bool,
    cursor: Point,
)
    ensures
        final(agents).len() == old(agents).len(),
        forall|i: int|
            0 <= i < old(agents).len() ==> #[trigger] final(agents)[i] == old(agents)[i].ordered(
                command_of(right_click, attack_key, cursor),
            ),
{
    let command: Option<UnitCommand> = if right_click {
        Some(UnitCommand::Move(cursor))
    } else if attack_key {
        Some(UnitCommand::AttackMove(cursor))
    } else {
        None
    };
    if command.is_some() {
        let mut i: usize = 0;
        while i < agents.len()
            invariant
                0 <= i <= agents.len(),
                agents.len() == old(agents).len(),
                command is Some,
                forall|j: int| 0 <= j < i ==> #[trigger] agents[j] == old(agents)[j].ordered(command),
                forall|j: int| i <= j < agents.len() ==> #[trigger] agents[j] == old(agents)[j],
            decreases agents.len() - i,
        {
            if agents[i].selected {
                let mut agent = agents[i];
                agent.unit.command = command;
                agents[i] = agent;
            }
            i = i + 1;
        }
    }
}

/// Re-evaluates the state of every unit against one and the same list of
/// the living.
pub fn update_unit_state(agents: &mut Vec<Agent>, entities: &Vec<Sighting>)
    ensures
        final(agents).len() == old(agents).len(),
        forall|i: int|
            0 <= i < old(agents).len() ==> #[trigger] final(agents)[i] == old(agents)[i].stepped(
                entities@,
            ),
{
    let mut i: usize = 0;
    while i < agents.len()
        invariant
            0 <= i <= agents.len(),
            agents.len() == old(agents).len(),
            forall|j: int| 0 <= j < i ==> #[trigger] agents[j] == old(agents)[j].stepped(entities@),
            forall|j: int| i <= j < agents.len() ==> #[trigger] agents[j] == old(agents)[j],
        decreases agents.len() - i,
    {
        let mut agent = agents[i];
        agent.unit.update_state(agent.pos, agent.faction, entities);
        agents[i] = agent;
        i = i + 1;
    }
}

/// Lets `dt` microseconds pass for every unit. Returns where each unit
/// heads, in the units' order, and the strikes that fall due.
pub fn process_unit_state(agents: &mut Vec<Agent>, entities: &Vec<Sighting>, dt: u64) -> (out: (
    Vec<Steering>,
    Vec<Strike>,
))
    ensures
        final(agents).len() == old(agents).len(),
        forall|i: int|
            0 <= i < old(agents).len() ==> #[trigger] final(agents)[i] == old(agents)[i].after_tick(
                dt,
            ),
        out.0.len() == old(agents).len(),
        forall|i: int|
            0 <= i < old(agents).len() ==> #[trigger] out.0[i] == old(agents)[i].unit.heading(
                entities@,
            ),
        out.1@ == strikes_before(old(agents)@, dt, old(agents).len() as int),
{
    let mut steerings: Vec<Steering> = Vec::new();
    let mut strikes: Vec<Strike> = Vec::new();
    let mut i: usize = 0;
    while i < agents.len()
        invariant
            0 <= i <= agents.len(),
            agents.len() == old(agents).len(),
            forall|j: int| 0 <= j < i ==> #[trigger] agents[j] == old(agents)[j].after_tick(dt),
            forall|j: int| i <= j < agents.len() ==> #[trigger] agents[j] == old(agents)[j],
            steerings.len() == i,
            forall|j: int|
                0 <= j < i ==> #[trigger] steerings[j] == old(agents)[j].unit.heading(entities@),
            strikes@ == strikes_before(old(agents)@, dt, i as int),
        decreases agents.len() - i,
    {
        let mut agent = agents[i];
        let act = agent.unit.process_state(entities, dt);
        agents[i] = agent;
        steerings.push(act.steering);
        match act.blow {
            Some(change) => {
                strikes.push(
                    Strike { attacker: agent.id, target: change.target, amount: change.amount },
                );
            },
            None => {},
        }
        i = i + 1;
    }
    (steerings, strikes)
}

/// Forwards the strikes of this tick as changes of health, one for one and
/// in order. What becomes of the targets is not decided here.
pub fn resolve_combat(strikes: &Vec<Strike>) -> (changes: Vec<HealthChange>)
    ensures
        changes.len() == strikes.len(),
        forall|i: int|
            0 <= i < strikes.len() ==> #[trigger] changes[i] == (HealthChange {
                target: strikes[i].target,
                amount: strikes[i].amount,
            }),
{
    let mut changes: Vec<HealthChange> = Vec::new();
    let mut i: usize = 0;
    while i < strikes.len()
        invariant
            0 <= i <= strikes.len(),
            changes.len() == i,
            forall|j: int|
                0 <= j < i ==> #[trigger] changes[j] == (HealthChange {
                    target: strikes[j].target,
                    amount: strikes[j].amount,
                }),
        decreases strikes.len() - i,
    {
        let strike = strikes[i];
        changes.push(HealthChange { target: strike.target, amount: strike.amount });
        i = i + 1;
    }
    changes
}

/// Health that a living crop unit of the kind loses in `dt` microseconds.
pub fn wilting(crop: Crop, dt: u64) -> (amount: i64)
    ensures
        amount == wilt(crop, dt),
{
    let health: u32 = crop.max_health();
    let life: u64 = crop.grow_time() + crop.decay_time();
    proof {
        lemma_share_bound(dt as int, health as int, life as int);
    }
    let lost: u128 = (dt as u128 * health as u128) / life as u128;
    -(lost as i64)
}

/// A share of `dt` that is at most a half is at most half of `dt`, and
/// the product from which it is computed fits 96 bits.
proof fn lemma_share_bound(dt: int, part: int, whole: int)
    by (nonlinear_arith)
    requires
        0 <= dt <= 0xFFFF_FFFF_FFFF_FFFF,
        0 <= part <= 0xFFFF_FFFF,
        2 * part <= whole,
        0 < whole,
    ensures
        0 <= dt * part <= 0xFFFF_FFFF_FFFF_FFFF * 0xFFFF_FFFF,
        0 <= (dt * part) / whole,
        2 * ((dt * part) / whole) <= dt,
{
    let q = (dt * part) / whole;
    assert(q * whole <= dt * part);
    assert(2 * (q * whole) <= dt * whole);
}

/// Asks, for every living crop unit, for the health that it loses by
/// wilting in `dt` microseconds.
pub fn crop_decay(crops: &Vec<Wilting>, dt: u64) -> (changes: Vec<HealthChange>)
    ensures
        changes.len() == crops.len(),
        forall|i: int|
            0 <= i < crops.len() ==> #[trigger] changes[i] == (HealthChange {
                target: crops[i].id,
                amount: wilt(crops[i].crop, dt) as i64,
            }),
{
    let mut changes: Vec<HealthChange> = Vec::new();
    let mut i: usize = 0;
    while i < crops.len()
        invariant
            0 <= i <= crops.len(),
            changes.len() == i,
            forall|j: int|
                0 <= j < i ==> #[trigger] changes[j] == (HealthChange {
                    target: crops[j].id,
                    amount: wilt(crops[j].crop, dt) as i64,
                }),
        decreases crops.len() - i,
    {
        let wilting_unit = crops[i];
        changes.push(
            HealthChange { target: wilting_unit.id, amount: wilting(wilting_unit.crop, dt) },
        );
        i = i + 1;
    }
    changes
}


} // verus!
