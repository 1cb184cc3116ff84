//! Plots: where crops are planted, ripen, decay, and are harvested or
//! composted.
//!
//! A plot is locked, empty, growing a crop or holding a ripe one. The
//! player's actions move it from state to state; two clocks do the rest:
//! a growing crop ripens after its grow time, a ripe crop left alone
//! decays after its decay time and pays half its compost value.

use vstd::prelude::*;
use crate::consts::{
    CARROT_COMPOST, CARROT_COST, CARROT_COUNT, CARROT_DECAY_TIME, CARROT_GROW_TIME,
    CLOVER_COMPOST, CLOVER_COST, CLOVER_COUNT, CLOVER_DECAY_TIME, CLOVER_GROW_TIME, PLOT_HEIGHT,
    PLOT_UNLOCK_COST, PLOT_WIDTH, WHEAT_COMPOST, WHEAT_COST, WHEAT_COUNT, WHEAT_DECAY_TIME,
    WHEAT_GROW_TIME,
};
use crate::game::Compost;
use crate::geometry::Point;

verus! {

/// The kinds of crop.
#[derive(Clone, Copy, Debug, PartialEq, Eq, Structural)]
pub enum Crop {
    Carrot,
    Clover,
    Wheat,
}

/// The state of one plot. `Growing` and `Ready` carry the crop and the
/// time, in microseconds, spent in that state so far; the share of the
/// way to the next state is that time over the crop's grow or decay time.
#[derive(Clone, Copy, Debug, PartialEq, Eq, Structural)]
pub enum Plot {
    Locked,
    Empty,
    Growing(Crop, u64),
    Ready(Crop, u64),
}

/// What a player can ask of a plot.
#[derive(Clone, Copy, Debug, PartialEq, Eq, Structural)]
pub enum PlotAction {
    Plant(Crop),
    Harvest(Crop),
    Cancel,
    Compost(Crop),
    Unlock,
}

/// A ripe crop was cut at `pos` and is to become units.
#[derive(Clone, Copy, Debug, PartialEq, Eq, Structural)]
pub struct HarvestEvent {
    pub crop: Crop,
    pub pos: Point,
}

/// A plot and the centre of its footprint.
#[derive(Clone, Copy, Debug, PartialEq, Eq, Structural)]
pub struct Bed {
    pub plot: Plot,
    pub pos: Point,
}

/// How an action on a plot ended.
#[derive(Clone, Copy, Debug, PartialEq, Eq, Structural)]
pub enum PlotOutcome {
    /// The action was carried out.
    Done,
    /// The crop was harvested: the event is to be turned into units.
    Harvested(HarvestEvent),
    /// The ledger did not cover the price; nothing changed.
    Unpaid,
    /// The plot's state does not admit this action; nothing changed.
    Illegal,
}

/// What the ring shows while the pointer rests on one of its buttons.
#[derive(Clone, Copy, Debug, PartialEq, Eq, Structural)]
pub enum Quote {
    /// The action costs this much compost.
    Cost(u32),
    /// The action yields this much compost.
    Gain(u32),
    /// The action has no price; what is shown stays as it is.
    Unpriced,
}

impl Crop {
    /// Time from planting to ripeness.
    pub open spec fn spec_grow_time(self) -> u64 {
        match self {
            Crop::Carrot => CARROT_GROW_TIME,
            Crop::Clover => CLOVER_GROW_TIME,
            Crop::Wheat => WHEAT_GROW_TIME,
        }
    }

    /// Time a ripe crop keeps before it decays.
    pub open spec fn spec_decay_time(self) -> u64 {
        match self {
            Crop::Carrot => CARROT_DECAY_TIME,
            Crop::Clover => CLOVER_DECAY_TIME,
            Crop::Wheat => WHEAT_DECAY_TIME,
        }
    }

    /// Compost paid to plant the crop.
    pub open spec fn spec_plant_cost(self) -> u32 {
        match self {
            Crop::Carrot => CARROT_COST,
            Crop::Clover => CLOVER_COST,
            Crop::Wheat => WHEAT_COST,
        }
    }

    /// Compost gained by composting the ripe crop.
    pub open spec fn spec_compost_value(self) -> u32 {
        match self {
            Crop::Carrot => CARROT_COMPOST,
            Crop::Clover => CLOVER_COMPOST,
            Crop::Wheat => WHEAT_COMPOST,
        }
    }

    /// Units that one harvest of the crop yields.
    pub open spec fn spec_spawn_count(self) -> u32 {
        match self {
            Crop::Carrot => CARROT_COUNT,
            Crop::Clover => CLOVER_COUNT,
            Crop::Wheat => WHEAT_COUNT,
        }
    }

    /// Time from planting to ripeness.
    #[verifier::when_used_as_spec(spec_grow_time)]
    pub fn grow_time(self) -> (t: u64)
        ensures
            t == self.spec_grow_time(),
    {
        match self {
            Crop::Carrot => CARROT_GROW_TIME,
            Crop::Clover => CLOVER_GROW_TIME,
            Crop::Wheat => WHEAT_GROW_TIME,
        }
    }

    /// Time a ripe crop keeps before it decays.
    #[verifier::when_used_as_spec(spec_decay_time)]
    pub fn decay_time(self) -> (t: u64)
        ensures
            t == self.spec_decay_time(),
    {
        match self {
            Crop::Carrot => CARROT_DECAY_TIME,
            Crop::Clover => CLOVER_DECAY_TIME,
            Crop::Wheat => WHEAT_DECAY_TIME,
        }
    }

    /// Compost paid to plant the crop.
    #[verifier::when_used_as_spec(spec_plant_cost)]
    pub fn plant_cost(self) -> (c: u32)
        ensures
            c == self.spec_plant_cost(),
    {
        match self {
            Crop::Carrot => CARROT_COST,
            Crop::Clover => CLOVER_COST,
            Crop::Wheat => WHEAT_COST,
        }
    }

    /// Compost gained by composting the ripe crop.
    #[verifier::when_used_as_spec(spec_compost_value)]
    pub fn compost_value(self) -> (c: u32)
        ensures
            c == self.spec_compost_value(),
    {
        match self {
            Crop::Carrot => CARROT_COMPOST,
            Crop::Clover => CLOVER_COMPOST,
            Crop::Wheat => WHEAT_COMPOST,
        }
    }

    /// Units that one harvest of the crop yields.
    #[verifier::when_used_as_spec(spec_spawn_count)]
    pub fn spawn_count(self) -> (n: u32)
        ensures
            n == self.spec_spawn_count(),
    {
        match self {
            Crop::Carrot => CARROT_COUNT,
            Crop::Clover => CLOVER_COUNT,
            Crop::Wheat => WHEAT_COUNT,
        }
    }
}

impl PlotAction {
    /// The price that belongs to the action.
    pub open spec fn quoted(self) -> Quote {
        match self {
            PlotAction::Plant(crop) => Quote::Cost(crop.plant_cost()),
            PlotAction::Compost(crop) => Quote::Gain(crop.compost_value()),
            PlotAction::Unlock => Quote::Cost(PLOT_UNLOCK_COST),
            PlotAction::Harvest(_) => Quote::Unpriced,
            PlotAction::Cancel => Quote::Unpriced,
        }
    }

    /// What to show for the action while the pointer rests on its button:
    /// the cost of planting or unlocking, the gain of composting, and
    /// nothing new for the rest.
    pub fn quote(&self) -> (q: Quote)
        ensures
            q == self.quoted(),
    {
        match self {
            PlotAction::Plant(crop) => Quote::Cost(crop.plant_cost()),
            PlotAction::Compost(crop) => Quote::Gain(crop.compost_value()),
            PlotAction::Unlock => Quote::Cost(PLOT_UNLOCK_COST),
            PlotAction::Harvest(_) => Quote::Unpriced,
            PlotAction::Cancel => Quote::Unpriced,
        }
    }
}

impl Default for Plot {
    /// A plot starts locked unless the layout says otherwise.
    fn default() -> (p: Plot)
        ensures
            p == Plot::Locked,
    {
        Plot::Locked
    }
}

impl Plot {
    /// Time spent in the current state; zero for a plot that holds no
    /// crop.
    pub open spec fn progress(self) -> u64 {
        match self {
            Plot::Locked => 0,
            Plot::Empty => 0,
            Plot::Growing(_, progress) => progress,
            Plot::Ready(_, progress) => progress,
        }
    }

    /// The two plots are in the same state, whatever their progress: both
    /// locked, both empty, both growing the same crop or both holding the
    /// same ripe crop.
    pub open spec fn same_phase(self, other: Plot) -> bool {
        match (self, other) {
            (Plot::Locked, Plot::Locked) => true,
            (Plot::Empty, Plot::Empty) => true,
            (Plot::Growing(a, _), Plot::Growing(b, _)) => a == b,
            (Plot::Ready(a, _), Plot::Ready(b, _)) => a == b,
            _ => false,
        }
    }

    /// The plot's state admits the action.
    pub open spec fn admits(self, action: PlotAction) -> bool {
        match (self, action) {
            (Plot::Locked, PlotAction::Unlock) => true,
            (Plot::Empty, PlotAction::Plant(_)) => true,
            (Plot::Growing(_, _), PlotAction::Cancel) => true,
            (Plot::Ready(_, _), PlotAction::Harvest(_)) => true,
            (Plot::Ready(_, _), PlotAction::Compost(_)) => true,
            _ => false,
        }
    }

    /// Compost that the action takes from the ledger on this plot.
    pub open spec fn price(self, action: PlotAction) -> nat {
        match (self, action) {
            (Plot::Locked, PlotAction::Unlock) => PLOT_UNLOCK_COST as nat,
            (Plot::Empty, PlotAction::Plant(crop)) => crop.plant_cost() as nat,
            _ => 0,
        }
    }

    /// Compost that the action pays into the ledger on this plot.
    pub open spec fn yield_of(self, action: PlotAction) -> nat {
        match (self, action) {
            (Plot::Ready(crop, _), PlotAction::Compost(_)) => crop.compost_value() as nat,
            _ => 0,
        }
    }

    /// The action is admitted and the balance covers its price.
    pub open spec fn carries_out(self, action: PlotAction, balance: nat) -> bool {
        self.admits(action) && balance >= self.price(action)
    }

    /// The plot after the action, with `balance` in the ledger.
    pub open spec fn after(self, action: PlotAction, balance: nat) -> Plot {
        if !self.carries_out(action, balance) {
            self
        } else {
            match action {
                PlotAction::Plant(crop) => Plot::Growing(crop, 0),
                _ => Plot::Empty,
            }
        }
    }

    /// The ledger's balance after the action.
    pub open spec fn balance_after(self, action: PlotAction, balance: nat) -> nat {
        if !self.carries_out(action, balance) {
            balance
        } else {
            (balance - self.price(action) + self.yield_of(action)) as nat
        }
    }

    /// How the action ends on a plot at `pos`. A harvest reports the crop
    /// that stood on the plot, whatever crop the action names.
    pub open spec fn outcome(self, action: PlotAction, balance: nat, pos: Point) -> PlotOutcome {
        if !self.admits(action) {
            PlotOutcome::Illegal
        } else if balance < self.price(action) {
            PlotOutcome::Unpaid
        } else {
            match (self, action) {
                (Plot::Ready(crop, _), PlotAction::Harvest(_)) => PlotOutcome::Harvested(
                    HarvestEvent { crop, pos },
                ),
                _ => PlotOutcome::Done,
            }
        }
    }

    /// The clock would carry the plot into its next state: the time spent
    /// plus `dt` reaches the crop's grow or decay time.
    pub open spec fn due(self, dt: u64) -> bool {
        match self {
            Plot::Growing(crop, progress) => progress + dt >= crop.grow_time(),
            Plot::Ready(crop, progress) => progress + dt >= crop.decay_time(),
            _ => false,
        }
    }

    /// The plot after `dt` more microseconds. While the player is choosing
    /// an action for the plot (`pending`), time still counts but the plot
    /// does not change state.
    pub open spec fn ticked(self, dt: u64, pending: bool) -> Plot {
        match self {
            Plot::Locked => self,
            Plot::Empty => self,
            Plot::Growing(crop, progress) => if self.due(dt) && !pending {
                Plot::Ready(crop, 0)
            } else {
                Plot::Growing(crop, (progress + dt) as u64)
            },
            Plot::Ready(crop, progress) => if self.due(dt) && !pending {
                Plot::Empty
            } else {
                Plot::Ready(crop, (progress + dt) as u64)
            },
        }
    }

    /// Compost that the plot pays when `dt` more microseconds make its ripe
    /// crop decay: half the crop's compost value, rounded down.
    pub open spec fn decay_credit(self, dt: u64, pending: bool) -> nat {
        match self {
            Plot::Ready(crop, _) => if self.due(dt) && !pending {
                (crop.compost_value() / 2) as nat
            } else {
                0
            },
            _ => 0,
        }
    }

    /// The time spent plus `dt` can be stored.
    pub open spec fn can_tick(self, dt: u64) -> bool {
        self.progress() + dt <= u64::MAX
    }

    /// Decides whether [`Plot::tick`] can be called: the time spent plus
    /// `dt` can be stored, and so can the ledger's balance with what a
    /// decay would pay.
    pub fn fits_tick(&self, dt: u64, pending: bool, compost: &Compost) -> (ok: bool)
        ensures
            ok == (self.can_tick(dt) && compost.amount() + self.decay_credit(dt, pending)
                <= u32::MAX),
    {
        match *self {
            Plot::Locked => true,
            Plot::Empty => true,
            Plot::Growing(_, progress) => progress <= u64::MAX - dt,
            Plot::Ready(crop, progress) => {
                if progress > u64::MAX - dt {
                    false
                } else if progress + dt >= crop.decay_time() && !pending {
                    compost.balance() <= u32::MAX - crop.compost_value() / 2
                } else {
                    true
                }
            },
        }
    }

    /// Decides whether [`handle_plot_event`] can be called: the ledger's
    /// balance with what the action would pay can be stored.
    pub fn fits_action(&self, action: PlotAction, compost: &Compost) -> (ok: bool)
        ensures
            ok == (compost.amount() + self.yield_of(action) <= u32::MAX),
    {
        match (*self, action) {
            (Plot::Ready(crop, _), PlotAction::Compost(_)) => compost.balance() <= u32::MAX
                - crop.compost_value(),
            _ => true,
        }
    }

    /// Advances the plot's clock by `dt` microseconds and credits the
    /// ledger when a ripe crop decays.
    pub fn tick(&mut self, dt: u64, pending: bool, compost: &mut Compost)
        requires
            old(self).can_tick(dt),
            old(compost).amount() + old(self).decay_credit(dt, pending) <= u32::MAX,
        ensures
            *final(self) == old(self).ticked(dt, pending),
            final(compost).amount() == old(compost).amount() + old(self).decay_credit(dt, pending),
    {
        match *self {
            Plot::Locked => {},
            Plot::Empty => {},
            Plot::Growing(crop, progress) => {
                let t: u64 = progress + dt;
                if t >= crop.grow_time() && !pending {
                    *self = Plot::Ready(crop, 0);
                } else {
                    *self = Plot::Growing(crop, t);
                }
            },
            Plot::Ready(crop, progress) => {
                let t: u64 = progress + dt;
                if t >= crop.decay_time() && !pending {
                    compost.credit(crop.compost_value() / 2);
                    *self = Plot::Empty;
                } else {
                    *self = Plot::Ready(crop, t);
                }
            },
        }
    }
}

/// The garden as a session begins: a locked plot to the right of the
/// origin, one above it and one to its left, and an empty plot below it,
/// each one footprint away.
pub open spec fn garden() -> Seq<Bed> {
    seq![
        Bed { plot: Plot::Locked, pos: Point { x: PLOT_WIDTH as i32, y: 0 } },
        Bed { plot: Plot::Locked, pos: Point { x: 0, y: PLOT_HEIGHT as i32 } },
        Bed { plot: Plot::Locked, pos: Point { x: (-PLOT_WIDTH) as i32, y: 0 } },
        Bed { plot: Plot::Empty, pos: Point { x: 0, y: (-PLOT_HEIGHT) as i32 } },
    ]
}

/// Lays out the garden for a new session.
pub fn init() -> (beds: Vec<Bed>)
    ensures
        beds@ == garden(),
{
    let width: i32 = PLOT_WIDTH as i32;
    let height: i32 = PLOT_HEIGHT as i32;
    let mut beds: Vec<Bed> = Vec::new();
    beds.push(Bed { plot: Plot::default(), pos: Point { x: width, y: 0 } });
    beds.push(Bed { plot: Plot::default(), pos: Point { x: 0, y: height } });
    beds.push(Bed { plot: Plot::default(), pos: Point { x: -width, y: 0 } });
    beds.push(Bed { plot: Plot::Empty, pos: Point { x: 0, y: -height } });
    assert(beds@ =~= garden());
    beds
}

/// Carries out one action of the player on the plot at `pos`.
///
/// Unlocking and planting are paid from the ledger and fail, changing
/// nothing, when it does not cover them; cancelling a growing crop refunds
/// nothing; composting a ripe crop credits its full value; harvesting one
/// hands back the event that turns it into units. An action that the
/// plot's state does not admit changes nothing.
pub fn handle_plot_event(
    plot: &mut Plot,
    pos: Point,
    event: PlotAction,
    compost: &mut Compost,
) -> (outcome: PlotOutcome)
    requires
        old(compost).amount() + old(plot).yield_of(event) <= u32::MAX,
    ensures
        outcome == old(plot).outcome(event, old(compost).amount(), pos),
        *final(plot) == old(plot).after(event, old(compost).amount()),
        final(compost).amount() == old(plot).balance_after(event, old(compost).amount()),
{
    match (*plot, event) {
        (Plot::Locked, PlotAction::Unlock) => {
            if compost.try_spend(PLOT_UNLOCK_COST) {
                *plot = Plot::Empty;
                PlotOutcome::Done
            } else {
                PlotOutcome::Unpaid
            }
        },
        (Plot::Empty, PlotAction::Plant(crop)) => {
            if compost.try_spend(crop.plant_cost()) {
                *plot = Plot::Growing(crop, 0);
                PlotOutcome::Done
            } else {
                PlotOutcome::Unpaid
            }
        },
        (Plot::Growing(_, _), PlotAction::Cancel) => {
            *plot = Plot::Empty;
            PlotOutcome::Done
        },
        (Plot::Ready(crop, _), PlotAction::Harvest(_)) => {
            *plot = Plot::Empty;
            PlotOutcome::Harvested(HarvestEvent { crop, pos })
        },
        (Plot::Ready(crop, _), PlotAction::Compost(_)) => {
            compost.credit(crop.compost_value());
            *plot = Plot::Empty;
            PlotOutcome::Done
        },
        _ => PlotOutcome::Illegal,
    }
}

/// The player is choosing an action for the plot at index `i`.
pub open spec fn pending_at(active: Option<usize>, i: int) -> bool {
    active == Some(i as usize)
}

/// Compost that the first `n` plots pay together by decay when `dt` more
/// microseconds pass.
pub open spec fn decay_credit_before(
    plots: Seq<Plot>,
    dt: u64,
    active: Option<usize>,
    n: int,
) -> nat
    decreases n,
{
    if n <= 0 {
        0
    } else {
        decay_credit_before(plots, dt, active, n - 1) + plots[n - 1].decay_credit(
            dt,
            pending_at(active, n - 1),
        )
    }
}

/// The decay credit of a longer run of plots is no less than that of a
/// shorter one.
pub proof fn lemma_decay_credit_monotone(
    plots: Seq<Plot>,
    dt: u64,
    active: Option<usize>,
    m: int,
    n: int,
)
    requires
        m <= n,
    ensures
        decay_credit_before(plots, dt, active, m) <= decay_credit_before(plots, dt, active, n),
    decreases n - m,
{
    if m < n {
        lemma_decay_credit_monotone(plots, dt, active, m, n - 1);
    }
}

/// Decides whether [`update_plot`] can be called: every plot can store
/// the time it has spent plus `dt`, and the ledger its balance with what
/// the decaying crops would pay.
pub fn fits_update(plots: &Vec<Plot>, dt: u64, active: Option<usize>, compost: &Compost) -> (ok:
    bool)
    ensures
        ok == ((forall|i: int| 0 <= i < plots.len() ==> (#[trigger] plots[i]).can_tick(dt))
            && compost.amount() + decay_credit_before(plots@, dt, active, plots.len() as int)
            <= u32::MAX),
{
    let mut ledger: Compost = Compost::new(compost.balance());
    let mut i: usize = 0;
    while i < plots.len()
        invariant
            0 <= i <= plots.len(),
            forall|j: int| 0 <= j < i ==> (#[trigger] plots[j]).can_tick(dt),
            ledger.amount() == compost.amount() + decay_credit_before(plots@, dt, active, i as int),
        decreases plots.len() - i,
    {
        let pending = match active {
            Some(at) => at == i,
            None => false,
        };
        let mut plot = plots[i];
        if !plot.fits_tick(dt, pending, &ledger) {
            proof {
                lemma_decay_credit_monotone(plots@, dt, active, i + 1, plots.len() as int);
            }
            return false;
        }
        plot.tick(dt, pending, &mut ledger);
        i = i + 1;
    }
    true
}

/// Advances the clock of every plot by `dt` microseconds. The plot at
/// index `active`, if any, is the one for which the player is choosing an
/// action: it counts the time but does not change state. Every ripe crop
/// that decays credits half its compost value to the ledger.
pub fn update_plot(plots: &mut Vec<Plot>, dt: u64, active: Option<usize>, compost: &mut Compost)
    requires
        forall|i: int| 0 <= i < old(plots).len() ==> (#[trigger] old(plots)[i]).can_tick(dt),
        old(compost).amount() + decay_credit_before(
            old(plots)@,
            dt,
            active,
            old(plots).len() as int,
        ) <= u32::MAX,
    ensures
        final(plots).len() == old(plots).len(),
        forall|i: int|
            0 <= i < old(plots).len() ==> #[trigger] final(plots)[i] == old(plots)[i].ticked(
                dt,
                pending_at(active, i),
            ),
        final(compost).amount() == old(compost).amount() + decay_credit_before(
            old(plots)@,
            dt,
            active,
            old(plots).len() as int,
        ),
{
    let mut i: usize = 0;
    while i < plots.len()
        invariant
            0 <= i <= plots.len(),
            plots.len() == old(plots).len(),
            forall|j: int| 0 <= j < old(plots).len() ==> (#[trigger] old(plots)[j]).can_tick(dt),
            old(compost).amount() + decay_credit_before(
                old(plots)@,
                dt,
                active,
                old(plots).len() as int,
            ) <= u32::MAX,
            forall|j: int|
                0 <= j < i ==> #[trigger] plots[j] == old(plots)[j].ticked(
                    dt,
                    pending_at(active, j),
                ),
            forall|j: int| i <= j < plots.len() ==> #[trigger] plots[j] == old(plots)[j],
            compost.amount() == old(compost).amount() + decay_credit_before(
                old(plots)@,
                dt,
                active,
                i as int,
            ),
        decreases plots.len() - i,
    {
        let pending = match active {
            Some(at) => at == i,
            None => false,
        };
        proof {
            lemma_decay_credit_monotone(old(plots)@, dt, active, i + 1, old(plots).len() as int);
        }
        let mut plot = plots[i];
        plot.tick(dt, pending, compost);
        plots[i] = plot;
        i = i + 1;
    }
}

/// Progress never runs backwards within a state.
///
/// Across a tick and across an action alike: if the plot is in the same
/// state afterwards as before, its progress has not dropped, and an
/// action leaves it as it was. So progress falls back to zero only where
/// the plot changes state: on ripening, decay, cancelling, harvest or
/// composting.
pub proof fn lemma_progress_monotone(
    plot: Plot,
    dt: u64,
    pending: bool,
    action: PlotAction,
    balance: nat,
)
    requires
        plot.can_tick(dt),
    ensures
        plot.same_phase(plot.ticked(dt, pending)) ==> plot.ticked(dt, pending).progress()
            >= plot.progress(),
        (plot is Growing || plot is Ready) && plot.same_phase(plot.ticked(dt, pending))
            ==> plot.ticked(dt, pending).progress() == plot.progress() + dt,
        plot.ticked(dt, pending).progress() < plot.progress() ==> !plot.same_phase(
            plot.ticked(dt, pending),
        ),
        plot.same_phase(plot.after(action, balance)) ==> plot.after(action, balance) == plot,
        plot.after(action, balance).progress() < plot.progress() ==> !plot.same_phase(
            plot.after(action, balance),
        ),
        !plot.same_phase(plot.ticked(dt, pending)) ==> plot.ticked(dt, pending).progress() == 0,
        !plot.same_phase(plot.after(action, balance)) ==> plot.after(action, balance).progress()
            == 0,
{
}

} // verus!
