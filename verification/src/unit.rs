//! Units: what they are made of and how each decides, tick by tick, whom
//! to chase and when to strike.
//!
//! A unit idles, moves, chases or attacks. Every tick it first re-evaluates
//! its state against the living entities ([`Unit::update_state`]) and then
//! lets the time of the tick pass ([`Unit::process_state`]), which is when
//! a strike falls.

use vstd::prelude::*;
use crate::consts::TARGET_MOVEMENT_SLOP;
use crate::geometry::{lemma_dist_self, Point};
use crate::health::HealthChange;
use crate::target::{
    chosen, eligible, lemma_chosen_answers, locate, position_of, select_target, Search, Sighting,
};

verus! {

/// The two sides. Each attacks the other.
#[derive(Clone, Copy, Debug, PartialEq, Eq, Structural)]
pub enum Faction {
    Friendly,
    Enemy,
}

/// What a unit is doing. A target is held by its id alone and looked up
/// again on every tick: it may be gone by then.
#[derive(Clone, Copy, Debug, PartialEq, Eq, Structural)]
pub enum UnitState {
    Idle,
    Move(Point),
    Chase(u64),
    Attack(u64),
}

/// An order of the player that overrides what the unit would do by itself.
#[derive(Clone, Copy, Debug, PartialEq, Eq, Structural)]
pub enum UnitCommand {
    /// Walk to the point and ignore everything on the way.
    Move(Point),
    /// Walk to the point and engage what comes into reach on the way.
    AttackMove(Point),
}

/// One combat unit: its state, its standing order, and its numbers.
#[derive(Clone, Copy, Debug, PartialEq, Eq, Structural)]
pub struct Unit {
    pub state: UnitState,
    pub command: Option<UnitCommand>,
    /// Speed, in thousandths of a world unit per second.
    pub move_speed: u32,
    /// Radius within which an idle unit takes up pursuit.
    pub aggro_range: u32,
    /// Distance beyond which a pursued target is given up.
    pub chase_range: u32,
    /// Distance within which a pursuing unit strikes.
    pub attack_range: u32,
    /// How far from its anchor the unit may go in pursuit.
    pub leash_range: u32,
    /// Time between two strikes, in microseconds.
    pub attack_period: u64,
    /// Time left until the next strike is due.
    pub attack_cooldown: u64,
    /// Health that one strike takes from its target.
    pub damage: u32,
    /// Where the unit goes back to when it loses its target.
    pub last_destination: Point,
    /// The anchor from which the leash is measured.
    pub leash_origin: Point,
}

/// Where a unit wants to go in this tick. Whoever moves the units turns
/// `Toward` into a velocity of the unit's speed in the direction of the
/// point, and leaves the velocity alone on `Hold`.
#[derive(Clone, Copy, Debug, PartialEq, Eq, Structural)]
pub enum Steering {
    Hold,
    Toward(Point),
}

/// What one unit does in a tick: where it heads, and the blow it deals if
/// its strike is due.
#[derive(Clone, Copy, Debug, PartialEq, Eq, Structural)]
pub struct Act {
    pub steering: Steering,
    pub blow: Option<HealthChange>,
}

impl Faction {
    /// The side that this side attacks.
    pub open spec fn foe(self) -> Faction {
        match self {
            Faction::Friendly => Faction::Enemy,
            Faction::Enemy => Faction::Friendly,
        }
    }

    /// The side that this side attacks.
    pub fn opposing(self) -> (f: Faction)
        ensures
            f == self.foe(),
    {
        match self {
            Faction::Friendly => Faction::Enemy,
            Faction::Enemy => Faction::Friendly,
        }
    }
}

impl Unit {
    /// A unit as it is created: idle, under no order, anchored at the
    /// origin, its first strike a full period away.
    pub open spec fn fresh(
        move_speed: u32,
        aggro_range: u32,
        chase_range: u32,
        attack_range: u32,
        leash_range: u32,
        attack_speed: u64,
        damage: u32,
    ) -> Unit {
        Unit {
            state: UnitState::Idle,
            command: None,
            move_speed,
            aggro_range,
            chase_range,
            attack_range,
            leash_range,
            attack_period: attack_speed,
            attack_cooldown: attack_speed,
            damage,
            last_destination: Point { x: 0, y: 0 },
            leash_origin: Point { x: 0, y: 0 },
        }
    }

    /// Creates a unit with the given numbers; `attack_speed` is the time
    /// between two strikes.
    pub fn new(
        move_speed: u32,
        aggro_range: u32,
        chase_range: u32,
        attack_range: u32,
        leash_range: u32,
        attack_speed: u64,
        damage: u32,
    ) -> (unit: Unit)
        ensures
            unit == Unit::fresh(
                move_speed,
                aggro_range,
                chase_range,
                attack_range,
                leash_range,
                attack_speed,
                damage,
            ),
    {
        Unit {
            state: UnitState::Idle,
            command: None,
            move_speed,
            aggro_range,
            chase_range,
            attack_range,
            leash_range,
            attack_period: attack_speed,
            attack_cooldown: attack_speed,
            damage,
            last_destination: Point { x: 0, y: 0 },
            leash_origin: Point { x: 0, y: 0 },
        }
    }
}

impl Unit {
    /// The unit has arrived at `anchor`: its order is done, it idles, and
    /// `anchor` is where it returns to and where its leash is tied.
    pub open spec fn settled(self, anchor: Point) -> Unit {
        Unit {
            state: UnitState::Idle,
            command: None,
            last_destination: anchor,
            leash_origin: anchor,
            ..self
        }
    }

    /// The unit, standing at `pos`, takes up the pursuit of `target`: it
    /// will return to `resume`, and its leash is tied where it stands.
    pub open spec fn engaged(self, target: u64, resume: Point, pos: Point) -> Unit {
        Unit {
            state: UnitState::Chase(target),
            last_destination: resume,
            leash_origin: pos,
            ..self
        }
    }

    /// The unit in another state, all else unchanged.
    pub open spec fn in_state(self, state: UnitState) -> Unit {
        Unit { state, ..self }
    }

    /// Whom the unit, standing at `pos`, sees when it looks `radius` far
    /// for the other side.
    pub open spec fn perceives(
        self,
        pos: Point,
        faction: Faction,
        entities: Seq<Sighting>,
        radius: u32,
    ) -> Option<u64> {
        chosen(
            entities,
            Search {
                origin: pos,
                radius,
                leash_origin: self.leash_origin,
                leash_range: self.leash_range,
                faction: faction.foe(),
            },
        )
    }

    /// `target` is alive and within the unit's attack range.
    pub open spec fn in_reach(self, pos: Point, target: u64, entities: Seq<Sighting>) -> bool {
        match position_of(entities, target) {
            Some(at) => pos.within(at, self.attack_range),
            None => false,
        }
    }

    /// `target` is gone, has got farther away than the chase range, or has
    /// drawn the unit farther from its anchor than the leash allows.
    pub open spec fn loses(self, pos: Point, target: u64, entities: Seq<Sighting>) -> bool {
        match position_of(entities, target) {
            Some(at) => !pos.within(at, self.chase_range) || !self.leash_origin.within(
                pos,
                self.leash_range,
            ),
            None => true,
        }
    }

    /// The state in which a tick leaves a unit that pursues `target`: it
    /// gives up and walks back where the target is lost, strikes where it
    /// is in reach, and keeps closing in otherwise.
    pub open spec fn pursues(self, pos: Point, target: u64, entities: Seq<Sighting>) -> UnitState {
        if self.loses(pos, target, entities) {
            UnitState::Move(self.last_destination)
        } else if self.in_reach(pos, target, entities) {
            UnitState::Attack(target)
        } else {
            UnitState::Chase(target)
        }
    }

    /// The unit after one re-evaluation of its state, standing at `pos`,
    /// on the side `faction`, with `entities` alive.
    ///
    /// An order to move is followed whatever the unit was doing, and ends
    /// on arrival. An order to attack-move ends on arrival too; on the way
    /// a walking unit engages what it sees within its chase range, ties
    /// its leash where it stands and will resume its way afterwards. With
    /// no order, an idle unit engages what it sees within its aggro range,
    /// ties its leash where it stands and will return there; a unit
    /// walking back engages likewise but leaves its leash and its way
    /// back as they are, and settles where it stands once it is back. An
    /// attacking unit holds until its strike, which is not part of this
    /// step.
    pub open spec fn step(self, pos: Point, faction: Faction, entities: Seq<Sighting>) -> Unit {
        match self.command {
            Some(UnitCommand::Move(dest)) => if pos.within(dest, TARGET_MOVEMENT_SLOP) {
                self.settled(dest)
            } else {
                self.in_state(UnitState::Move(dest))
            },
            Some(UnitCommand::AttackMove(dest)) => if pos.within(dest, TARGET_MOVEMENT_SLOP) {
                self.settled(dest)
            } else {
                match self.state {
                    UnitState::Idle => self.in_state(UnitState::Move(dest)),
                    UnitState::Move(_) => match self.perceives(
                        pos,
                        faction,
                        entities,
                        self.chase_range,
                    ) {
                        Some(target) => self.engaged(target, dest, pos),
                        None => self.in_state(UnitState::Move(dest)),
                    },
                    UnitState::Chase(target) => self.in_state(self.pursues(pos, target, entities)),
                    UnitState::Attack(_) => self,
                }
            },
            None => match self.state {
                UnitState::Idle => match self.perceives(pos, faction, entities, self.aggro_range) {
                    Some(target) => self.engaged(target, pos, pos),
                    None => self,
                },
                UnitState::Move(dest) => if pos.within(dest, TARGET_MOVEMENT_SLOP) {
                    self.settled(pos)
                } else {
                    match self.perceives(pos, faction, entities, self.aggro_range) {
                        Some(target) => self.in_state(UnitState::Chase(target)),
                        None => self,
                    }
                },
                UnitState::Chase(target) => self.in_state(self.pursues(pos, target, entities)),
                UnitState::Attack(_) => self,
            },
        }
    }

    /// Looks `radius` far for a target of the other side.
    fn look(&self, pos: Point, faction: Faction, entities: &Vec<Sighting>, radius: u32) -> (target:
        Option<u64>)
        ensures
            target == self.perceives(pos, faction, entities@, radius),
    {
        select_target(
            entities,
            pos,
            radius,
            self.leash_origin,
            self.leash_range,
            faction.opposing(),
        )
    }

    /// Decides how the pursuit of `target` goes on.
    fn pursuit(&self, pos: Point, target: u64, entities: &Vec<Sighting>) -> (state: UnitState)
        ensures
            state == self.pursues(pos, target, entities@),
    {
        match locate(entities, target) {
            None => UnitState::Move(self.last_destination),
            Some(at) => {
                if !pos.is_within(&at, self.chase_range) || !self.leash_origin.is_within(
                    &pos,
                    self.leash_range,
                ) {
                    UnitState::Move(self.last_destination)
                } else if pos.is_within(&at, self.attack_range) {
                    UnitState::Attack(target)
                } else {
                    UnitState::Chase(target)
                }
            },
        }
    }

    /// Ends the unit's order on arrival at `anchor`.
    fn settle(&mut self, anchor: Point)
        ensures
            *final(self) == old(self).settled(anchor),
    {
        self.last_destination = anchor;
        self.leash_origin = anchor;
        self.command = None;
        self.state = UnitState::Idle;
    }

    /// Re-evaluates the unit's state for this tick. The unit stands at
    /// `pos` and is of `faction`; `entities` are the living.
    ///
    /// A unit that turns to attack has its target alive and within its
    /// attack range at this tick.
    pub fn update_state(&mut self, pos: Point, faction: Faction, entities: &Vec<Sighting>)
        ensures
            *final(self) == old(self).step(pos, faction, entities@),
            forall|target: u64|
                final(self).state == UnitState::Attack(target) && old(self).state
                    != UnitState::Attack(target) ==> old(self).in_reach(pos, target, entities@),
    {
        match self.command {
            Some(UnitCommand::Move(dest)) => {
                if pos.is_within(&dest, TARGET_MOVEMENT_SLOP) {
                    self.settle(dest);
                } else {
                    self.state = UnitState::Move(dest);
                }
            },
            Some(UnitCommand::AttackMove(dest)) => {
                if pos.is_within(&dest, TARGET_MOVEMENT_SLOP) {
                    self.settle(dest);
                } else {
                    match self.state {
                        UnitState::Idle => {
                            self.state = UnitState::Move(dest);
                        },
                        UnitState::Move(_) => {
                            match self.look(pos, faction, entities, self.chase_range) {
                                Some(target) => {
                                    self.last_destination = dest;
                                    self.leash_origin = pos;
                                    self.state = UnitState::Chase(target);
                                },
                                None => {
                                    self.state = UnitState::Move(dest);
                                },
                            }
                        },
                        UnitState::Chase(target) => {
                            self.state = self.pursuit(pos, target, entities);
                        },
                        UnitState::Attack(_) => {},
                    }
                }
            },
            None => {
                match self.state {
                    UnitState::Idle => {
                        match self.look(pos, faction, entities, self.aggro_range) {
                            Some(target) => {
                                self.last_destination = pos;
                                self.leash_origin = pos;
                                self.state = UnitState::Chase(target);
                            },
                            None => {},
                        }
                    },
                    UnitState::Move(dest) => {
                        if pos.is_within(&dest, TARGET_MOVEMENT_SLOP) {
                            self.settle(pos);
                        } else {
                            match self.look(pos, faction, entities, self.aggro_range) {
                                Some(target) => {
                                    self.state = UnitState::Chase(target);
                                },
                                None => {},
                            }
                        }
                    },
                    UnitState::Chase(target) => {
                        self.state = self.pursuit(pos, target, entities);
                    },
                    UnitState::Attack(_) => {},
                }
            },
        }
    }
}

impl Unit {
    /// Time left until the next strike once `dt` more microseconds have
    /// passed: the cooldown counts down and stops at zero.
    pub open spec fn cooled(self, dt: u64) -> u64 {
        if dt >= self.attack_cooldown {
            0
        } else {
            (self.attack_cooldown - dt) as u64
        }
    }

    /// The unit strikes in a tick of `dt` microseconds: it is attacking
    /// and its cooldown runs out.
    pub open spec fn strikes(self, dt: u64) -> bool {
        self.state is Attack && self.cooled(dt) == 0
    }

    /// The blow that the unit deals in a tick of `dt` microseconds, if its
    /// strike is due: its damage, taken from the health of its target.
    pub open spec fn blow(self, dt: u64) -> Option<HealthChange> {
        match self.state {
            UnitState::Attack(target) => if self.cooled(dt) == 0 {
                Some(HealthChange { target, amount: (-(self.damage as int)) as i64 })
            } else {
                None
            },
            _ => None,
        }
    }

    /// The unit after a tick of `dt` microseconds. A strike sets the
    /// cooldown back to the full period and sends the unit back to
    /// chasing, so that range and leash are looked at again before the
    /// next strike.
    pub open spec fn after_tick(self, dt: u64) -> Unit {
        match self.state {
            UnitState::Attack(target) => if self.cooled(dt) == 0 {
                Unit {
                    state: UnitState::Chase(target),
                    attack_cooldown: self.attack_period,
                    ..self
                }
            } else {
                Unit { attack_cooldown: self.cooled(dt), ..self }
            },
            _ => Unit { attack_cooldown: self.cooled(dt), ..self },
        }
    }

    /// Where the unit heads: to its destination when it moves, to its
    /// target when it chases one that is alive, nowhere otherwise.
    pub open spec fn heading(self, entities: Seq<Sighting>) -> Steering {
        match self.state {
            UnitState::Idle => Steering::Hold,
            UnitState::Move(dest) => Steering::Toward(dest),
            UnitState::Chase(target) => match position_of(entities, target) {
                Some(at) => Steering::Toward(at),
                None => Steering::Hold,
            },
            UnitState::Attack(_) => Steering::Hold,
        }
    }

    /// Lets `dt` microseconds pass for the unit: counts its cooldown down,
    /// says where it heads, and deals its blow when it is attacking and
    /// the cooldown has run out.
    pub fn process_state(&mut self, entities: &Vec<Sighting>, dt: u64) -> (act: Act)
        ensures
            *final(self) == old(self).after_tick(dt),
            act.steering == old(self).heading(entities@),
            act.blow == old(self).blow(dt),
            act.blow is Some <==> old(self).strikes(dt),
    {
        let left: u64 = if dt >= self.attack_cooldown {
            0
        } else {
            self.attack_cooldown - dt
        };
        self.attack_cooldown = left;
        match self.state {
            UnitState::Idle => Act { steering: Steering::Hold, blow: None },
            UnitState::Move(dest) => Act { steering: Steering::Toward(dest), blow: None },
            UnitState::Chase(target) => {
                let steering = match locate(entities, target) {
                    Some(at) => Steering::Toward(at),
                    None => Steering::Hold,
                };
                Act { steering, blow: None }
            },
            UnitState::Attack(target) => {
                if left == 0 {
                    self.attack_cooldown = self.attack_period;
                    self.state = UnitState::Chase(target);
                    Act {
                        steering: Steering::Hold,
                        blow: Some(HealthChange { target, amount: -(self.damage as i64) }),
                    }
                } else {
                    Act { steering: Steering::Hold, blow: None }
                }
            },
        }
    }

    /// Sends a pest on its way: it is ordered to attack-move to the
    /// origin, where the home base stands.
    pub fn enemy_spawn(&mut self)
        ensures
            *final(self) == (Unit {
                command: Some(UnitCommand::AttackMove(Point { x: 0, y: 0 })),
                ..*old(self)
            }),
    {
        self.command = Some(UnitCommand::AttackMove(Point { x: 0, y: 0 }));
    }
}

impl Unit {
    /// A unit under no order returns to where its leash is tied.
    pub open spec fn anchored(self) -> bool {
        self.command is None ==> self.last_destination == self.leash_origin
    }
}

/// A unit under no order always walks back to its anchor.
///
/// A unit is created with its leash tied where it returns to, and neither
/// a re-evaluation of its state, nor the passing of time, nor an order
/// changes that for a unit under no order: whenever such a unit gives up
/// a pursuit, it walks back to the point from which its leash is
/// measured.
pub proof fn lemma_anchor_kept(
    unit: Unit,
    pos: Point,
    faction: Faction,
    entities: Seq<Sighting>,
    dt: u64,
    command: UnitCommand,
)
    requires
        unit.anchored(),
    ensures
        unit.step(pos, faction, entities).anchored(),
        unit.after_tick(dt).anchored(),
        (Unit { command: Some(command), ..unit }).anchored(),
        forall|a: u32, b: u32, c: u32, d: u32, e: u32, f: u64, g: u32|
            (#[trigger] Unit::fresh(a, b, c, d, e, f, g)).anchored(),
{
}

/// A unit takes up the pursuit only of a foe that it sees.
///
/// When a unit that did not pursue before a tick pursues `target` after
/// it, some living entity bears that id, is of the other side, is closer
/// to the unit's anchor than its leash is long, and stands within the
/// range at which the unit looks: its aggro range under no order, its
/// chase range under an order to attack-move.
pub proof fn lemma_engages_foe_in_sight(
    unit: Unit,
    pos: Point,
    faction: Faction,
    entities: Seq<Sighting>,
    target: u64,
)
    requires
        !(unit.state is Chase),
        unit.step(pos, faction, entities).state == UnitState::Chase(target),
    ensures
        exists|i: int|
            0 <= i < entities.len() && (#[trigger] entities[i]).id == target && entities[i].faction
                == faction.foe() && unit.leash_origin.inside(entities[i].pos, unit.leash_range)
                && pos.within(
                entities[i].pos,
                if unit.command is None {
                    unit.aggro_range
                } else {
                    unit.chase_range
                },
            ),
{
    let radius = if unit.command is None {
        unit.aggro_range
    } else {
        unit.chase_range
    };
    let search = Search {
        origin: pos,
        radius,
        leash_origin: unit.leash_origin,
        leash_range: unit.leash_range,
        faction: faction.foe(),
    };
    assert(unit.perceives(pos, faction, entities, radius) == Some(target));
    lemma_chosen_answers(entities, search);
    let i = choose|i: int|
        0 <= i < entities.len() && #[trigger] eligible(entities[i], search) && entities[i].id
            == chosen(entities, search)->0;
    assert(eligible(entities[i], search));
    assert(entities[i].id == target);
}

/// A unit turns to attack only a target that is alive and within its
/// attack range at that tick.
pub proof fn lemma_attack_within_range(
    unit: Unit,
    pos: Point,
    faction: Faction,
    entities: Seq<Sighting>,
    target: u64,
)
    requires
        unit.step(pos, faction, entities).state == UnitState::Attack(target),
        unit.state != UnitState::Attack(target),
    ensures
        position_of(entities, target) is Some,
        pos.within(position_of(entities, target)->0, unit.attack_range),
{
}

/// The leash holds through a pursuit and mends itself within one tick.
///
/// A unit that pursued before a tick and still pursues or attacks after it
/// is within its leash range of its anchor. A unit that takes up a pursuit
/// from idling, or from walking under an order to attack-move, has its
/// leash tied where it stands. And a pursuing unit that is found beyond
/// its leash range neither pursues nor attacks after that tick.
pub proof fn lemma_leash_holds(unit: Unit, pos: Point, faction: Faction, entities: Seq<Sighting>)
    ensures
        ({
            let next = unit.step(pos, faction, entities);
            &&& unit.state is Chase && (next.state is Chase || next.state is Attack)
                ==> next.leash_origin.within(pos, next.leash_range)
            &&& (unit.state is Idle || (unit.state is Move && unit.command matches Some(
                UnitCommand::AttackMove(_),
            ))) && next.state is Chase ==> next.leash_origin == pos && next.leash_origin.within(
                pos,
                next.leash_range,
            )
            &&& unit.state is Chase && !unit.leash_origin.within(pos, unit.leash_range) ==> !(
            next.state is Chase) && !(next.state is Attack)
        }),
{
    lemma_dist_self(pos, unit.leash_range);
}

} // verus!
