//! One tick of the whole simulation, in its fixed order.
//!
//! The passes of a tick depend on one another only through their order:
//! orders go out first, then every unit re-evaluates its state against
//! one list of the living, then the units head where they decided to go
//! and the strikes that are due fall, then the plots' clocks move on, and
//! last the crops harvested since the previous tick become units. Moving
//! the units is not done here: whoever owns their positions does it, from
//! the headings that the tick returns.

use vstd::prelude::*;
use vstd::arithmetic::div_mod::lemma_small_mod;
use crate::arena::{
    command_of, crop_decay, process_command, process_unit_state, resolve_combat, strikes_before,
    update_unit_state, wilt, Agent, Strike, Wilting,
};
use crate::consts::{APHID_RAMP, CATERPILLAR_RAMP};
use crate::game::Compost;
use crate::geometry::Point;
use crate::harvest::{
    fits_harvest, footprint_fits, handle_harvest_event, spawned_from, yield_before, Spawn,
};
use crate::health::HealthChange;
use crate::plot::{
    decay_credit_before, fits_update, pending_at, update_plot, HarvestEvent, Plot,
};
use crate::spawner::{hastened, Spawner};
use crate::target::Sighting;
use crate::unit::{Steering, Unit};

verus! {

/// What the player did in a tick, as far as the units are concerned.
#[derive(Clone, Copy, Debug, PartialEq, Eq, Structural)]
pub struct Input {
    /// The right button was pressed: the selected units are to move.
    pub right_click: bool,
    /// The attack key was pressed: the selected units are to attack-move.
    pub attack_key: bool,
    /// Where the pointer is.
    pub cursor: Point,
}

/// What a tick asks of the world around the simulation.
pub struct Report {
    /// Where each unit heads, in the units' order.
    pub steerings: Vec<Steering>,
    /// The blows that fell, in the order of the units that dealt them.
    pub blows: Vec<HealthChange>,
    /// The health that each living crop unit loses by wilting.
    pub wilts: Vec<HealthChange>,
    /// The units to create for the crops that were harvested.
    pub spawns: Vec<Spawn>,
}

/// The agent as it stands between the second pass and the third: its
/// order received, its state re-evaluated.
pub open spec fn decided(agent: Agent, input: Input, entities: Seq<Sighting>) -> Agent {
    agent.ordered(command_of(input.right_click, input.attack_key, input.cursor)).stepped(entities)
}

/// All agents as they stand between the second pass and the third.
pub open spec fn all_decided(agents: Seq<Agent>, input: Input, entities: Seq<Sighting>) -> Seq<
    Agent,
> {
    Seq::new(agents.len(), |i: int| decided(agents[i], input, entities))
}

/// The change of health that forwards a strike.
pub open spec fn forwarded(strike: Strike) -> HealthChange {
    HealthChange { target: strike.target, amount: strike.amount }
}

/// Decides whether [`tick`] can be called: every plot can store the time
/// it has spent plus `dt`, the ledger its balance with what the decaying
/// crops would pay, and the footprint of every harvested plot lies within
/// the coordinates that a point can hold.
pub fn fits_tick(
    plots: &Vec<Plot>,
    active: Option<usize>,
    compost: &Compost,
    harvests: &Vec<HarvestEvent>,
    dt: u64,
) -> (ok: bool)
    ensures
        ok == ((forall|i: int| 0 <= i < plots.len() ==> (#[trigger] plots[i]).can_tick(dt))
            && compost.amount() + decay_credit_before(plots@, dt, active, plots.len() as int)
            <= u32::MAX && (forall|i: int|
            0 <= i < harvests.len() ==> footprint_fits(#[trigger] harvests[i].pos))),
{
    fits_update(plots, dt, active, compost) && fits_harvest(harvests)
}

/// Runs one tick of `dt` microseconds.
///
/// `entities` lists the living as they stand when the tick begins;
/// `crops` the living crop units; `active` is the index of the plot for
/// which the player is choosing an action, if any; `harvests` are the
/// crops harvested since the previous tick.
pub fn tick(
    agents: &mut Vec<Agent>,
    entities: &Vec<Sighting>,
    crops: &Vec<Wilting>,
    plots: &mut Vec<Plot>,
    active: Option<usize>,
    compost: &mut Compost,
    harvests: &Vec<HarvestEvent>,
    input: Input,
    dt: u64,
) -> (report: Report)
    requires
        forall|i: int| 0 <= i < old(plots).len() ==> (#[trigger] old(plots)[i]).can_tick(dt),
        old(compost).amount() + decay_credit_before(
            old(plots)@,
            dt,
            active,
            old(plots).len() as int,
        ) <= u32::MAX,
        forall|i: int| 0 <= i < harvests.len() ==> footprint_fits(#[trigger] harvests[i].pos),
    ensures
        final(agents).len() == old(agents).len(),
        forall|i: int|
            0 <= i < old(agents).len() ==> #[trigger] final(agents)[i] == decided(
                old(agents)[i],
                input,
                entities@,
            ).after_tick(dt),
        report.steerings.len() == old(agents).len(),
        forall|i: int|
            0 <= i < old(agents).len() ==> #[trigger] report.steerings[i] == decided(
                old(agents)[i],
                input,
                entities@,
            ).unit.heading(entities@),
        report.blows@ == strikes_before(
            all_decided(old(agents)@, input, entities@),
            dt,
            old(agents).len() as int,
        ).map_values(|strike: Strike| forwarded(strike)),
        report.wilts.len() == crops.len(),
        forall|i: int|
            0 <= i < crops.len() ==> #[trigger] report.wilts[i] == (HealthChange {
                target: crops[i].id,
                amount: wilt(crops[i].crop, dt) as i64,
            }),
        final(plots).len() == old(plots).len(),
        forall|i: int|
            0 <= i < old(plots).len() ==> #[trigger] final(plots)[i] == old(plots)[i].ticked(
                dt,
                pending_at(active, i),
            ),
        final(compost).amount() == old(compost).amount() + decay_credit_before(
            old(plots)@,
            dt,
            active,
            old(plots).len() as int,
        ),
        report.spawns.len() == yield_before(harvests@, harvests.len() as int),
        forall|i: int, k: int|
            0 <= i < harvests.len() && 0 <= k < harvests[i].crop.spawn_count() ==> spawned_from(
                #[trigger] report.spawns[yield_before(harvests@, i) + k],
                harvests[i],
            ),
{
    process_command(agents, input.right_click, input.attack_key, input.cursor);
    update_unit_state(agents, entities);
    assert(agents@ =~= all_decided(old(agents)@, input, entities@));
    let (steerings, strikes) = process_unit_state(agents, entities, dt);
    let blows = resolve_combat(&strikes);
    assert(blows@ =~= strikes@.map_values(|strike: Strike| forwarded(strike)));
    let wilts = crop_decay(crops, dt);
    update_plot(plots, dt, active, compost);
    let spawns = handle_harvest_event(harvests);
    Report { steerings, blows, wilts, spawns }
}

/// A tick of no time moves no clock.
///
/// While the simulation is paused its ticks last no time. Such a tick
/// leaves every cooldown where it was, every plot that is not due for its
/// next state as it was, and the pests' clocks and the session's time as
/// they were.
pub proof fn lemma_pause_freezes_clocks(unit: Unit, plot: Plot, pending: bool, spawner: Spawner)
    requires
        spawner.aphid.elapsed < spawner.aphid.period,
        spawner.caterpillar.elapsed < spawner.caterpillar.period,
    ensures
        unit.cooled(0) == unit.attack_cooldown,
        !unit.strikes(0) ==> unit.after_tick(0) == unit,
        !plot.due(0) || pending ==> plot.ticked(0, pending) == plot,
        plot.decay_credit(0, true) == 0,
        spawner.ticked(0) == spawner,
        !spawner.wave(0).aphid && !spawner.wave(0).caterpillar,
{
    assert(hastened(0, spawner.total, APHID_RAMP) == 0);
    assert(hastened(0, spawner.total, CATERPILLAR_RAMP) == 0);
    lemma_small_mod(spawner.aphid.elapsed as nat, spawner.aphid.period as nat);
    lemma_small_mod(spawner.caterpillar.elapsed as nat, spawner.caterpillar.period as nat);
}

} // verus!
