//! The pests and the clocks that bring them.
//!
//! Two clocks run through a session, one for each kind of pest, and both
//! run faster the longer the session lasts. Each time a clock comes round,
//! one pest of its kind appears somewhere on a line drawn round the
//! visible part of the arena.

use vstd::prelude::*;
use crate::consts::{
    APHID_AGGRO_RANGE, APHID_ATTACK_RANGE, APHID_ATTACK_SPEED, APHID_CHASE_RANGE, APHID_DAMAGE,
    APHID_HEALTH, APHID_LEASH_RANGE, APHID_MOVE_SPEED, APHID_RADIUS, APHID_RAMP,
    APHID_RESPAWN_PERIOD, APHID_SPAWN_PERIOD, CATERPILLAR_AGGRO_RANGE, CATERPILLAR_ATTACK_RANGE,
    CATERPILLAR_ATTACK_SPEED, CATERPILLAR_CHASE_RANGE, CATERPILLAR_DAMAGE, CATERPILLAR_HEALTH,
    CATERPILLAR_LEASH_RANGE, CATERPILLAR_MOVE_SPEED, CATERPILLAR_RADIUS, CATERPILLAR_RAMP,
    CATERPILLAR_RESPAWN_PERIOD, CATERPILLAR_SPAWN_PERIOD, SECOND, SPAWN_MARGIN,
};
use crate::geometry::Point;
use crate::health::Health;
use crate::random::{draw_below, fresh_rng};
use crate::unit::{Faction, Unit};

verus! {

/// The pests that march on the garden.
#[derive(Clone, Copy, Debug, PartialEq, Eq, Structural)]
pub enum Pest {
    Aphid,
    Caterpillar,
}

/// A clock that comes round every `period` microseconds and starts over.
#[derive(Clone, Copy, Debug, PartialEq, Eq, Structural)]
pub struct SpawnClock {
    pub period: u64,
    /// Time since the clock last came round, below `period` between ticks.
    pub elapsed: u64,
}

/// The clocks of the two kinds of pest and the time that the session has
/// lasted.
#[derive(Clone, Copy, Debug, PartialEq, Eq, Structural)]
pub struct Spawner {
    pub aphid: SpawnClock,
    pub caterpillar: SpawnClock,
    pub total: u64,
}

/// Which clocks came round in a tick.
#[derive(Clone, Copy, Debug, PartialEq, Eq, Structural)]
pub struct Wave {
    pub aphid: bool,
    pub caterpillar: bool,
}

/// A pest that is to be created.
#[derive(Clone, Copy, Debug, PartialEq, Eq, Structural)]
pub struct Arrival {
    pub pest: Pest,
    /// The side of the new unit: pests fight against the garden.
    pub faction: Faction,
    pub pos: Point,
    pub unit: Unit,
    pub health: Health,
    /// Radius of the pest's body.
    pub radius: u32,
}

impl Pest {
    /// The unit that a pest of this kind is.
    pub open spec fn recruit(self) -> Unit {
        match self {
            Pest::Aphid => Unit::fresh(
                APHID_MOVE_SPEED,
                APHID_AGGRO_RANGE,
                APHID_CHASE_RANGE,
                APHID_ATTACK_RANGE,
                APHID_LEASH_RANGE,
                APHID_ATTACK_SPEED,
                APHID_DAMAGE,
            ),
            Pest::Caterpillar => Unit::fresh(
                CATERPILLAR_MOVE_SPEED,
                CATERPILLAR_AGGRO_RANGE,
                CATERPILLAR_CHASE_RANGE,
                CATERPILLAR_ATTACK_RANGE,
                CATERPILLAR_LEASH_RANGE,
                CATERPILLAR_ATTACK_SPEED,
                CATERPILLAR_DAMAGE,
            ),
        }
    }

    /// Health of a pest of this kind when it appears.
    pub open spec fn spec_max_health(self) -> u32 {
        match self {
            Pest::Aphid => APHID_HEALTH,
            Pest::Caterpillar => CATERPILLAR_HEALTH,
        }
    }

    /// Radius of the body of a pest of this kind.
    pub open spec fn spec_radius(self) -> u32 {
        match self {
            Pest::Aphid => APHID_RADIUS,
            Pest::Caterpillar => CATERPILLAR_RADIUS,
        }
    }

    /// Builds the unit that a pest of this kind is.
    pub fn unit(self) -> (unit: Unit)
        ensures
            unit == self.recruit(),
    {
        match self {
            Pest::Aphid => Unit::new(
                APHID_MOVE_SPEED,
                APHID_AGGRO_RANGE,
                APHID_CHASE_RANGE,
                APHID_ATTACK_RANGE,
                APHID_LEASH_RANGE,
                APHID_ATTACK_SPEED,
                APHID_DAMAGE,
            ),
            Pest::Caterpillar => Unit::new(
                CATERPILLAR_MOVE_SPEED,
                CATERPILLAR_AGGRO_RANGE,
                CATERPILLAR_CHASE_RANGE,
                CATERPILLAR_ATTACK_RANGE,
                CATERPILLAR_LEASH_RANGE,
                CATERPILLAR_ATTACK_SPEED,
                CATERPILLAR_DAMAGE,
            ),
        }
    }

    /// Health of a pest of this kind when it appears.
    #[verifier::when_used_as_spec(spec_max_health)]
    pub fn max_health(self) -> (h: u32)
        ensures
            h == self.spec_max_health(),
    {
        match self {
            Pest::Aphid => APHID_HEALTH,
            Pest::Caterpillar => CATERPILLAR_HEALTH,
        }
    }

    /// Radius of the body of a pest of this kind.
    #[verifier::when_used_as_spec(spec_radius)]
    pub fn radius(self) -> (r: u32)
        ensures
            r == self.spec_radius(),
    {
        match self {
            Pest::Aphid => APHID_RADIUS,
            Pest::Caterpillar => CATERPILLAR_RADIUS,
        }
    }
}

/// The time by which a clock moves on in a tick of `dt` microseconds when
/// the session has lasted `total`: the tick itself, and as much again for
/// every `ramp` microseconds of the session, in proportion and rounded
/// down.
pub open spec fn hastened(dt: u64, total: u64, ramp: u64) -> int {
    dt + (dt * total) / (ramp as int)
}

impl SpawnClock {
    /// The clock comes round when it moves on by `gain`.
    pub open spec fn fires(self, gain: int) -> bool {
        self.elapsed + gain >= self.period
    }

    /// The clock after it has moved on by `gain`: what is left over from
    /// the rounds it completed.
    pub open spec fn advanced(self, gain: int) -> SpawnClock {
        SpawnClock { period: self.period, elapsed: ((self.elapsed + gain) % (self.period as int)) as u64 }
    }

    /// A clock of the given period that has just come round.
    pub fn new(period: u64) -> (clock: SpawnClock)
        ensures
            clock == (SpawnClock { period, elapsed: 0 }),
    {
        SpawnClock { period, elapsed: 0 }
    }

    /// Moves the clock on by `gain` microseconds and says whether it came
    /// round. However many rounds fit into `gain`, it says so once.
    pub fn tick(&mut self, gain: u128) -> (fired: bool)
        requires
            old(self).period > 0,
            old(self).elapsed + gain <= u128::MAX,
        ensures
            fired == old(self).fires(gain as int),
            *final(self) == old(self).advanced(gain as int),
    {
        let reached: u128 = self.elapsed as u128 + gain;
        let period: u128 = self.period as u128;
        self.elapsed = (reached % period) as u64;
        reached >= period
    }
}

/// Speeds a tick of `dt` microseconds up for a clock with the given ramp.
fn hasten(dt: u64, total: u64, ramp: u64) -> (gain: u128)
    requires
        ramp > 0,
    ensures
        gain == hastened(dt, total, ramp),
        gain <= 0xFFFF_FFFF_FFFF_FFFF_0000_0000_0000_0000,
{
    proof {
        lemma_product_bound(dt as int, total as int, ramp as int);
    }
    let extra: u128 = (dt as u128 * total as u128) / ramp as u128;
    dt as u128 + extra
}

proof fn lemma_product_bound(a: int, b: int, d: int)
    by (nonlinear_arith)
    requires
        0 <= a <= 0xFFFF_FFFF_FFFF_FFFF,
        0 <= b <= 0xFFFF_FFFF_FFFF_FFFF,
        d >= 1,
    ensures
        0 <= a * b <= 0xFFFF_FFFF_FFFF_FFFE_0000_0000_0000_0001,
        0 <= (a * b) / d <= a * b,
{
}

impl Spawner {
    /// The spawner some time into a session: the two clocks and the
    /// session's time after a tick of `dt` microseconds. The clocks are
    /// sped up by the session's time at the end of the tick.
    pub open spec fn ticked(self, dt: u64) -> Spawner {
        let total = (self.total + dt) as u64;
        Spawner {
            aphid: self.aphid.advanced(hastened(dt, total, APHID_RAMP)),
            caterpillar: self.caterpillar.advanced(hastened(dt, total, CATERPILLAR_RAMP)),
            total,
        }
    }

    /// The clocks that come round in a tick of `dt` microseconds.
    pub open spec fn wave(self, dt: u64) -> Wave {
        let total = (self.total + dt) as u64;
        Wave {
            aphid: self.aphid.fires(hastened(dt, total, APHID_RAMP)),
            caterpillar: self.caterpillar.fires(hastened(dt, total, CATERPILLAR_RAMP)),
        }
    }

    /// Both clocks have a period, and the session's time plus `dt` can be
    /// stored.
    pub open spec fn can_tick(self, dt: u64) -> bool {
        &&& self.aphid.period > 0
        &&& self.caterpillar.period > 0
        &&& self.total + dt <= u64::MAX
    }

    /// The spawner with which the first session begins.
    pub fn new() -> (spawner: Spawner)
        ensures
            spawner == (Spawner {
                aphid: SpawnClock { period: APHID_SPAWN_PERIOD, elapsed: 0 },
                caterpillar: SpawnClock { period: CATERPILLAR_SPAWN_PERIOD, elapsed: 0 },
                total: 0,
            }),
    {
        Spawner {
            aphid: SpawnClock::new(APHID_SPAWN_PERIOD),
            caterpillar: SpawnClock::new(CATERPILLAR_SPAWN_PERIOD),
            total: 0,
        }
    }

    /// The spawner with which a session begins after a restart: its
    /// clocks are slower.
    pub fn reset() -> (spawner: Spawner)
        ensures
            spawner == (Spawner {
                aphid: SpawnClock { period: APHID_RESPAWN_PERIOD, elapsed: 0 },
                caterpillar: SpawnClock { period: CATERPILLAR_RESPAWN_PERIOD, elapsed: 0 },
                total: 0,
            }),
    {
        Spawner {
            aphid: SpawnClock::new(APHID_RESPAWN_PERIOD),
            caterpillar: SpawnClock::new(CATERPILLAR_RESPAWN_PERIOD),
            total: 0,
        }
    }

    /// The session's time as the timer shows it: whole minutes, and the
    /// whole seconds beyond them.
    pub fn update_timer(&self) -> (shown: (u64, u64))
        ensures
            shown.0 == self.total / SECOND / 60,
            shown.1 == self.total / SECOND % 60,
    {
        let seconds: u64 = self.total / SECOND;
        (seconds / 60, seconds % 60)
    }

    /// Lets `dt` microseconds of the session pass and says which clocks
    /// came round.
    pub fn tick(&mut self, dt: u64) -> (wave: Wave)
        requires
            old(self).can_tick(dt),
        ensures
            *final(self) == old(self).ticked(dt),
            wave == old(self).wave(dt),
    {
        self.total = self.total + dt;
        let aphid = self.aphid.tick(hasten(dt, self.total, APHID_RAMP));
        let caterpillar = self.caterpillar.tick(hasten(dt, self.total, CATERPILLAR_RAMP));
        Wave { aphid, caterpillar }
    }
}

/// The width and height of the line on which pests appear, for a window
/// of the given size: a quarter of the window, which is what the camera
/// shows of the arena, and a margin on top.
pub open spec fn spawn_line(window_width: u32, window_height: u32) -> (int, int) {
    (window_width / 4 + SPAWN_MARGIN, window_height / 4 + SPAWN_MARGIN)
}

/// The line round a window of the given size is short enough for a place
/// on it to be drawn.
pub open spec fn line_fits(window_width: u32, window_height: u32) -> bool {
    2 * spawn_line(window_width, window_height).0 + 2 * spawn_line(
        window_width,
        window_height,
    ).1 <= u32::MAX
}

/// `p` lies on the rectangle of the given width and height centred at the
/// origin: on its lower or upper side, or on its right or left side.
pub open spec fn on_rim(p: Point, width: int, height: int) -> bool {
    let x = p.x + width / 2;
    let y = p.y + height / 2;
    ||| 0 <= x < width && (y == 0 || y == height)
    ||| 0 <= y < height && (x == 0 || x == width)
}

/// The point of the rectangle's rim that lies `along` it: the rim is
/// walked from the lower left corner along the lower side, then up the
/// right side, then along the upper side from the left, then up the left
/// side.
pub open spec fn rim_point(width: int, height: int, along: int) -> Point {
    let x = if along < width {
        along
    } else if along < width + height {
        width
    } else if along < 2 * width + height {
        along - width - height
    } else {
        0
    };
    let y = if along < width {
        0
    } else if along < width + height {
        along - width
    } else if along < 2 * width + height {
        height
    } else {
        along - 2 * width - height
    };
    Point { x: (x - width / 2) as i32, y: (y - height / 2) as i32 }
}

/// Finds the point of the rim that a draw below the rim's length leads
/// to.
pub fn perimeter_point(width: u32, height: u32, along: u32) -> (p: Point)
    requires
        width + height <= i32::MAX,
        along < 2 * width + 2 * height,
    ensures
        p == rim_point(width as int, height as int, along as int),
        on_rim(p, width as int, height as int),
{
    let w: i64 = width as i64;
    let h: i64 = height as i64;
    let mut rest: i64 = along as i64;
    let x: i64;
    let y: i64;
    if rest < w {
        x = rest;
        y = 0;
    } else {
        rest = rest - w;
        if rest < h {
            x = w;
            y = rest;
        } else {
            rest = rest - h;
            if rest < w {
                x = rest;
                y = h;
            } else {
                x = 0;
                y = rest - w;
            }
        }
    }
    Point { x: (x - w / 2) as i32, y: (y - h / 2) as i32 }
}

/// `arrival` is a pest of the kind `pest` with its numbers and full
/// health, placed on the line round a window of the given size.
pub open spec fn arrived_as(
    arrival: Arrival,
    pest: Pest,
    window_width: u32,
    window_height: u32,
) -> bool {
    &&& arrival.pest == pest
    &&& arrival.faction == Faction::Enemy
    &&& arrival.unit == pest.recruit()
    &&& arrival.health == (Health { current: pest.max_health(), max: pest.max_health() })
    &&& arrival.radius == pest.radius()
    &&& on_rim(
        arrival.pos,
        spawn_line(window_width, window_height).0,
        spawn_line(window_width, window_height).1,
    )
}

/// Places one pest of the kind on the line round the window, `along`
/// the line.
pub fn place_pest(pest: Pest, window_width: u32, window_height: u32, along: u32) -> (arrival:
    Arrival)
    requires
        line_fits(window_width, window_height),
        along < 2 * spawn_line(window_width, window_height).0 + 2 * spawn_line(
            window_width,
            window_height,
        ).1,
    ensures
        arrived_as(arrival, pest, window_width, window_height),
        arrival.pos == rim_point(
            spawn_line(window_width, window_height).0,
            spawn_line(window_width, window_height).1,
            along as int,
        ),
{
    let width: u32 = window_width / 4 + SPAWN_MARGIN;
    let height: u32 = window_height / 4 + SPAWN_MARGIN;
    let health: u32 = pest.max_health();
    Arrival {
        pest,
        faction: Faction::Enemy,
        pos: perimeter_point(width, height, along),
        unit: pest.unit(),
        health: Health::new(health),
        radius: pest.radius(),
    }
}

/// Decides whether [`enemy_spawning`] can be called: the clocks have
/// periods, the session's time plus `dt` can be stored, and the line
/// round the window is short enough for a place on it to be drawn.
pub fn fits_spawning(spawner: &Spawner, dt: u64, window_width: u32, window_height: u32) -> (ok:
    bool)
    ensures
        ok == (spawner.can_tick(dt) && line_fits(window_width, window_height)),
{
    let width: u64 = (window_width / 4) as u64 + SPAWN_MARGIN as u64;
    let height: u64 = (window_height / 4) as u64 + SPAWN_MARGIN as u64;
    spawner.aphid.period > 0 && spawner.caterpillar.period > 0 && spawner.total <= u64::MAX - dt
        && 2 * width + 2 * height <= u32::MAX as u64
}

/// Lets `dt` microseconds of the session pass and creates the pests whose
/// clocks came round: an aphid first, then a caterpillar, each at a
/// random point of the line round the window.
pub fn enemy_spawning(spawner: &mut Spawner, dt: u64, window_width: u32, window_height: u32) -> (
    arrivals: Vec<Arrival>)
    requires
        old(spawner).can_tick(dt),
        line_fits(window_width, window_height),
    ensures
        *final(spawner) == old(spawner).ticked(dt),
        arrivals.len() == (if old(spawner).wave(dt).aphid {
            1int
        } else {
            0int
        }) + (if old(spawner).wave(dt).caterpillar {
            1int
        } else {
            0int
        }),
        old(spawner).wave(dt).aphid ==> arrived_as(
            arrivals[0],
            Pest::Aphid,
            window_width,
            window_height,
        ),
        old(spawner).wave(dt).caterpillar ==> arrived_as(
            arrivals[arrivals.len() - 1],
            Pest::Caterpillar,
            window_width,
            window_height,
        ),
{
    let wave = spawner.tick(dt);
    let rng = fresh_rng();
    let width: u32 = window_width / 4 + SPAWN_MARGIN;
    let height: u32 = window_height / 4 + SPAWN_MARGIN;
    let rim: u32 = 2 * width + 2 * height;
    let mut arrivals: Vec<Arrival> = Vec::new();
    if wave.aphid {
        let along: u32 = draw_below(&rng, rim);
        arrivals.push(place_pest(Pest::Aphid, window_width, window_height, along));
    }
    if wave.caterpillar {
        let along: u32 = draw_below(&rng, rim);
        arrivals.push(place_pest(Pest::Caterpillar, window_width, window_height, along));
    }
    arrivals
}

} // verus!
