//! From harvest to units: a ripe crop that is cut becomes so many units,
//! scattered over the footprint of its plot.

use vstd::prelude::*;
use crate::consts::{
    CARROT_AGGRO_RANGE, CARROT_ATTACK_RANGE, CARROT_ATTACK_SPEED, CARROT_CHASE_RANGE,
    CARROT_DAMAGE, CARROT_HEALTH, CARROT_LEASH_RANGE, CARROT_MOVE_SPEED, CARROT_RADIUS,
    CLOVER_AGGRO_RANGE, CLOVER_ATTACK_RANGE, CLOVER_ATTACK_SPEED, CLOVER_CHASE_RANGE,
    CLOVER_DAMAGE, CLOVER_HEALTH, CLOVER_LEASH_RANGE, CLOVER_MOVE_SPEED, CLOVER_RADIUS,
    PLOT_HEIGHT, PLOT_WIDTH, WHEAT_AGGRO_RANGE, WHEAT_ATTACK_RANGE, WHEAT_ATTACK_SPEED,
    WHEAT_CHASE_RANGE, WHEAT_DAMAGE, WHEAT_HEALTH, WHEAT_LEASH_RANGE, WHEAT_MOVE_SPEED,
    WHEAT_RADIUS,
};
use crate::geometry::Point;
use crate::health::Health;
use crate::plot::{Crop, HarvestEvent, Plot, PlotAction, PlotOutcome};
use crate::random::{draw_below, fresh_rng};
use crate::unit::{Faction, Unit};

verus! {

/// A unit that is to be created for a harvested crop.
#[derive(Clone, Copy, Debug, PartialEq, Eq, Structural)]
pub struct Spawn {
    pub crop: Crop,
    /// The side of the new unit: harvested crops fight for the garden.
    pub faction: Faction,
    pub pos: Point,
    pub unit: Unit,
    pub health: Health,
    /// Radius of the unit's body.
    pub radius: u32,
}

impl Crop {
    /// The unit that a harvested crop of this kind becomes.
    pub open spec fn recruit(self) -> Unit {
        match self {
            Crop::Carrot => Unit::fresh(
                CARROT_MOVE_SPEED,
                CARROT_AGGRO_RANGE,
                CARROT_CHASE_RANGE,
                CARROT_ATTACK_RANGE,
                CARROT_LEASH_RANGE,
                CARROT_ATTACK_SPEED,
                CARROT_DAMAGE,
            ),
            Crop::Clover => Unit::fresh(
                CLOVER_MOVE_SPEED,
                CLOVER_AGGRO_RANGE,
                CLOVER_CHASE_RANGE,
                CLOVER_ATTACK_RANGE,
                CLOVER_LEASH_RANGE,
                CLOVER_ATTACK_SPEED,
                CLOVER_DAMAGE,
            ),
            Crop::Wheat => Unit::fresh(
                WHEAT_MOVE_SPEED,
                WHEAT_AGGRO_RANGE,
                WHEAT_CHASE_RANGE,
                WHEAT_ATTACK_RANGE,
                WHEAT_LEASH_RANGE,
                WHEAT_ATTACK_SPEED,
                WHEAT_DAMAGE,
            ),
        }
    }

    /// Health of a unit of this crop when it is created.
    pub open spec fn spec_max_health(self) -> u32 {
        match self {
            Crop::Carrot => CARROT_HEALTH,
            Crop::Clover => CLOVER_HEALTH,
            Crop::Wheat => WHEAT_HEALTH,
        }
    }

    /// Radius of the body of a unit of this crop.
    pub open spec fn spec_radius(self) -> u32 {
        match self {
            Crop::Carrot => CARROT_RADIUS,
            Crop::Clover => CLOVER_RADIUS,
            Crop::Wheat => WHEAT_RADIUS,
        }
    }

    /// Builds the unit that a harvested crop of this kind becomes.
    pub fn unit(self) -> (unit: Unit)
        ensures
            unit == self.recruit(),
    {
        match self {
            Crop::Carrot => Unit::new(
                CARROT_MOVE_SPEED,
                CARROT_AGGRO_RANGE,
                CARROT_CHASE_RANGE,
                CARROT_ATTACK_RANGE,
                CARROT_LEASH_RANGE,
                CARROT_ATTACK_SPEED,
                CARROT_DAMAGE,
            ),
            Crop::Clover => Unit::new(
                CLOVER_MOVE_SPEED,
                CLOVER_AGGRO_RANGE,
                CLOVER_CHASE_RANGE,
                CLOVER_ATTACK_RANGE,
                CLOVER_LEASH_RANGE,
                CLOVER_ATTACK_SPEED,
                CLOVER_DAMAGE,
            ),
            Crop::Wheat => Unit::new(
                WHEAT_MOVE_SPEED,
                WHEAT_AGGRO_RANGE,
                WHEAT_CHASE_RANGE,
                WHEAT_ATTACK_RANGE,
                WHEAT_LEASH_RANGE,
                WHEAT_ATTACK_SPEED,
                WHEAT_DAMAGE,
            ),
        }
    }

    /// Health of a unit of this crop when it is created.
    #[verifier::when_used_as_spec(spec_max_health)]
    pub fn max_health(self) -> (h: u32)
        ensures
            h == self.spec_max_health(),
    {
        match self {
            Crop::Carrot => CARROT_HEALTH,
            Crop::Clover => CLOVER_HEALTH,
            Crop::Wheat => WHEAT_HEALTH,
        }
    }

    /// Radius of the body of a unit of this crop.
    #[verifier::when_used_as_spec(spec_radius)]
    pub fn radius(self) -> (r: u32)
        ensures
            r == self.spec_radius(),
    {
        match self {
            Crop::Carrot => CARROT_RADIUS,
            Crop::Clover => CLOVER_RADIUS,
            Crop::Wheat => WHEAT_RADIUS,
        }
    }
}

/// The footprint of a plot centred at `center` lies within the
/// coordinates that a point can hold.
pub open spec fn footprint_fits(center: Point) -> bool {
    &&& i32::MIN <= center.x - PLOT_WIDTH / 2
    &&& center.x + PLOT_WIDTH / 2 <= i32::MAX
    &&& i32::MIN <= center.y - PLOT_HEIGHT / 2
    &&& center.y + PLOT_HEIGHT / 2 <= i32::MAX
}

/// `p` lies on the footprint of the plot centred at `center`.
pub open spec fn in_footprint(p: Point, center: Point) -> bool {
    &&& center.x - PLOT_WIDTH / 2 <= p.x < center.x + PLOT_WIDTH / 2
    &&& center.y - PLOT_HEIGHT / 2 <= p.y < center.y + PLOT_HEIGHT / 2
}

/// The point of the footprint to which the draws `rx` and `ry` lead: the
/// draws, taken from the footprint's width and height, are measured from
/// its lower left corner.
pub open spec fn scattered(center: Point, rx: u32, ry: u32) -> Point {
    Point {
        x: (center.x + rx - PLOT_WIDTH / 2) as i32,
        y: (center.y + ry - PLOT_HEIGHT / 2) as i32,
    }
}

/// `spawn` is a unit of the crop of `event`, with the crop's numbers and
/// full health, placed on the footprint of the plot that was harvested.
pub open spec fn spawned_from(spawn: Spawn, event: HarvestEvent) -> bool {
    &&& spawn.crop == event.crop
    &&& spawn.faction == Faction::Friendly
    &&& spawn.unit == event.crop.recruit()
    &&& spawn.health == (Health { current: event.crop.max_health(), max: event.crop.max_health() })
    &&& spawn.radius == event.crop.radius()
    &&& in_footprint(spawn.pos, event.pos)
}

/// The number of units that the first `n` of the events yield together.
pub open spec fn yield_before(events: Seq<HarvestEvent>, n: int) -> nat
    decreases n,
{
    if n <= 0 {
        0
    } else {
        yield_before(events, n - 1) + events[n - 1].crop.spawn_count() as nat
    }
}

/// Decides whether [`handle_harvest_event`] can be called: the footprint
/// of every harvested plot lies within the coordinates that a point can
/// hold.
pub fn fits_harvest(events: &Vec<HarvestEvent>) -> (ok: bool)
    ensures
        ok == (forall|i: int| 0 <= i < events.len() ==> footprint_fits(#[trigger] events[i].pos)),
{
    let half_width: i32 = (PLOT_WIDTH / 2) as i32;
    let half_height: i32 = (PLOT_HEIGHT / 2) as i32;
    let mut i: usize = 0;
    while i < events.len()
        invariant
            0 <= i <= events.len(),
            half_width == PLOT_WIDTH / 2,
            half_height == PLOT_HEIGHT / 2,
            forall|j: int| 0 <= j < i ==> footprint_fits(#[trigger] events[j].pos),
        decreases events.len() - i,
    {
        let pos = events[i].pos;
        if pos.x < i32::MIN + half_width || pos.x > i32::MAX - half_width || pos.y < i32::MIN
            + half_height || pos.y > i32::MAX - half_height {
            return false;
        }
        i = i + 1;
    }
    true
}

/// Places one unit on the footprint of the plot centred at `center`, from
/// two draws below the footprint's width and height.
pub fn scatter(center: Point, rx: u32, ry: u32) -> (p: Point)
    requires
        footprint_fits(center),
        rx < PLOT_WIDTH,
        ry < PLOT_HEIGHT,
    ensures
        p == scattered(center, rx, ry),
        in_footprint(p, center),
{
    let x: i64 = center.x as i64 + rx as i64 - (PLOT_WIDTH / 2) as i64;
    let y: i64 = center.y as i64 + ry as i64 - (PLOT_HEIGHT / 2) as i64;
    Point { x: x as i32, y: y as i32 }
}

/// Turns harvested crops into the units to create: for each event, in
/// order, as many units as its crop yields, each with the crop's numbers
/// and full health, scattered at random over the plot's footprint.
pub fn handle_harvest_event(events: &Vec<HarvestEvent>) -> (spawns: Vec<Spawn>)
    requires
        forall|i: int| 0 <= i < events.len() ==> footprint_fits(#[trigger] events[i].pos),
    ensures
        spawns.len() == yield_before(events@, events.len() as int),
        forall|i: int, k: int|
            0 <= i < events.len() && 0 <= k < events[i].crop.spawn_count() ==> spawned_from(
                #[trigger] spawns[yield_before(events@, i) + k],
                events[i],
            ),
{
    let rng = fresh_rng();
    let mut spawns: Vec<Spawn> = Vec::new();
    let mut i: usize = 0;
    while i < events.len()
        invariant
            0 <= i <= events.len(),
            forall|j: int| 0 <= j < events.len() ==> footprint_fits(#[trigger] events[j].pos),
            spawns.len() == yield_before(events@, i as int),
            forall|j: int, k: int|
                0 <= j < i && 0 <= k < events[j].crop.spawn_count() ==> spawned_from(
                    #[trigger] spawns[yield_before(events@, j) + k],
                    events[j],
                ),
        decreases events.len() - i,
    {
        let event = events[i];
        let count: u32 = event.crop.spawn_count();
        let ghost base = yield_before(events@, i as int);
        let ghost before = spawns@;
        let mut k: u32 = 0;
        while k < count
            invariant
                0 <= i < events.len(),
                event == events[i as int],
                footprint_fits(event.pos),
                count == event.crop.spawn_count(),
                0 <= k <= count,
                base == yield_before(events@, i as int),
                before.len() == base,
                spawns.len() == base + k,
                forall|j: int| 0 <= j < base ==> spawns[j] == before[j],
                forall|n: int| 0 <= n < k ==> spawned_from(#[trigger] spawns[base + n], event),
            decreases count - k,
        {
            let rx: u32 = draw_below(&rng, PLOT_WIDTH);
            let ry: u32 = draw_below(&rng, PLOT_HEIGHT);
            let health: u32 = event.crop.max_health();
            spawns.push(
                Spawn {
                    crop: event.crop,
                    faction: Faction::Friendly,
                    pos: scatter(event.pos, rx, ry),
                    unit: event.crop.unit(),
                    health: Health::new(health),
                    radius: event.crop.radius(),
                },
            );
            k = k + 1;
        }
        proof {
            assert forall|j: int, n: int|
                0 <= j < i + 1 && 0 <= n < events[j].crop.spawn_count() implies spawned_from(
                #[trigger] spawns[yield_before(events@, j) + n],
                events[j],
            ) by {
                if j < i {
                    lemma_yield_monotone(events@, j + 1, i as int);
                    assert(spawned_from(before[yield_before(events@, j) + n], events[j]));
                }
            }
        }
        i = i + 1;
    }
    spawns
}

/// The yield of a longer run of events is no less than that of a shorter
/// one.
pub proof fn lemma_yield_monotone(events: Seq<HarvestEvent>, m: int, n: int)
    requires
        m <= n,
    ensures
        yield_before(events, m) <= yield_before(events, n),
    decreases n - m,
{
    if m < n {
        lemma_yield_monotone(events, m, n - 1);
    }
}


/// A harvest always yields the crop's number of units and an empty plot.
///
/// Whatever time the ripe crop has stood, whatever crop the action names
/// and whatever the ledger holds: harvesting leaves the plot empty and the
/// ledger as it was, reports the crop that stood there, and that one
/// event stands for exactly as many units as the crop yields.
pub proof fn lemma_harvest_yield(crop: Crop, progress: u64, named: Crop, balance: nat, pos: Point)
    ensures
        Plot::Ready(crop, progress).after(PlotAction::Harvest(named), balance) == Plot::Empty,
        Plot::Ready(crop, progress).outcome(PlotAction::Harvest(named), balance, pos)
            == PlotOutcome::Harvested(HarvestEvent { crop, pos }),
        Plot::Ready(crop, progress).balance_after(PlotAction::Harvest(named), balance) == balance,
        yield_before(seq![HarvestEvent { crop, pos }], 1) == crop.spawn_count(),
{
    reveal_with_fuel(yield_before, 2);
}

} // verus!
