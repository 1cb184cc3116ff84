//! The numbers of the game.
//!
//! Lengths and speeds are in thousandths of a world unit (per second, for
//! speeds), times in microseconds, health and damage in thousandths of a
//! health point, compost in whole units.

use vstd::prelude::*;

verus! {

/// Coordinate steps in one world unit.
pub const UNIT: u32 = 1_000;

/// Microseconds in one second.
pub const SECOND: u64 = 1_000_000;

/// Width of a plot's footprint.
pub const PLOT_WIDTH: u32 = 32_000;

/// Height of a plot's footprint.
pub const PLOT_HEIGHT: u32 = 16_000;

/// Radius of the ring of actions that opens around a clicked plot.
pub const PLOT_CIRCLE_RADIUS: u32 = 24_000;

/// Radius within which a click lands on a button of that ring.
pub const PLOT_CIRCLE_BUTTON_RADIUS: u32 = 4_000;

/// Distance of the ring's buttons from its centre.
pub const PLOT_BUTTON_REACH: i32 = 18_000;

/// How far to the side the two lower buttons of a ring of three stand.
pub const PLOT_BUTTON_SIDE: i32 = 15_588;

/// How far below the centre the two lower buttons of a ring of three
/// stand.
pub const PLOT_BUTTON_DROP: i32 = 9_000;

/// Compost paid to unlock a plot.
pub const PLOT_UNLOCK_COST: u32 = 150;

/// Compost in the ledger when a session begins.
pub const STARTING_COMPOST: u32 = 100;

// The crops on their plots: times to grow and to decay, the cost of
// planting and the worth as compost.

pub const CARROT_GROW_TIME: u64 = 10_000_000;

pub const CARROT_DECAY_TIME: u64 = 30_000_000;

pub const CARROT_COST: u32 = 50;

pub const CARROT_COMPOST: u32 = 140;

pub const CLOVER_GROW_TIME: u64 = 3_000_000;

pub const CLOVER_DECAY_TIME: u64 = 4_000_000;

pub const CLOVER_COST: u32 = 0;

pub const CLOVER_COMPOST: u32 = 30;

pub const WHEAT_GROW_TIME: u64 = 5_000_000;

pub const WHEAT_DECAY_TIME: u64 = 10_000_000;

pub const WHEAT_COST: u32 = 20;

pub const WHEAT_COMPOST: u32 = 60;

// The crops as units: how many a harvest yields, and their numbers.

pub const CARROT_COUNT: u32 = 3;

pub const CARROT_MOVE_SPEED: u32 = 50_000;

pub const CARROT_AGGRO_RANGE: u32 = 25_000;

pub const CARROT_CHASE_RANGE: u32 = 50_000;

pub const CARROT_LEASH_RANGE: u32 = 100_000;

pub const CARROT_ATTACK_RANGE: u32 = 10_000;

pub const CARROT_ATTACK_SPEED: u64 = 1_000_000;

pub const CARROT_HEALTH: u32 = 20_000;

pub const CARROT_DAMAGE: u32 = 4_000;

pub const CARROT_RADIUS: u32 = 4_000;

pub const CLOVER_COUNT: u32 = 7;

pub const CLOVER_MOVE_SPEED: u32 = 100_000;

pub const CLOVER_AGGRO_RANGE: u32 = 25_000;

pub const CLOVER_CHASE_RANGE: u32 = 50_000;

pub const CLOVER_LEASH_RANGE: u32 = 100_000;

pub const CLOVER_ATTACK_RANGE: u32 = 10_000;

pub const CLOVER_ATTACK_SPEED: u64 = 1_000_000;

pub const CLOVER_HEALTH: u32 = 1_000;

pub const CLOVER_DAMAGE: u32 = 700;

pub const CLOVER_RADIUS: u32 = 2_000;

pub const WHEAT_COUNT: u32 = 5;

pub const WHEAT_MOVE_SPEED: u32 = 75_000;

pub const WHEAT_AGGRO_RANGE: u32 = 40_000;

pub const WHEAT_CHASE_RANGE: u32 = 50_000;

pub const WHEAT_LEASH_RANGE: u32 = 100_000;

pub const WHEAT_ATTACK_RANGE: u32 = 10_000;

pub const WHEAT_ATTACK_SPEED: u64 = 1_000_000;

pub const WHEAT_HEALTH: u32 = 10_000;

pub const WHEAT_DAMAGE: u32 = 1_000;

pub const WHEAT_RADIUS: u32 = 4_000;

// The pests.

pub const APHID_MOVE_SPEED: u32 = 75_000;

pub const APHID_AGGRO_RANGE: u32 = 100_000;

pub const APHID_CHASE_RANGE: u32 = 300_000;

pub const APHID_LEASH_RANGE: u32 = 100_000;

pub const APHID_ATTACK_RANGE: u32 = 10_000;

pub const APHID_ATTACK_SPEED: u64 = 500_000;

pub const APHID_HEALTH: u32 = 5_000;

pub const APHID_DAMAGE: u32 = 510;

pub const APHID_RADIUS: u32 = 4_000;

pub const CATERPILLAR_MOVE_SPEED: u32 = 25_000;

pub const CATERPILLAR_AGGRO_RANGE: u32 = 25_000;

pub const CATERPILLAR_CHASE_RANGE: u32 = 50_000;

pub const CATERPILLAR_LEASH_RANGE: u32 = 100_000;

pub const CATERPILLAR_ATTACK_RANGE: u32 = 16_000;

pub const CATERPILLAR_ATTACK_SPEED: u64 = 2_000_000;

pub const CATERPILLAR_HEALTH: u32 = 25_000;

pub const CATERPILLAR_DAMAGE: u32 = 7_000;

pub const CATERPILLAR_RADIUS: u32 = 8_000;

/// Health of the rose, the home base that the pests march on.
pub const ROSE_HEALTH: u32 = 100_000;

/// How close to its destination a unit must be to have arrived.
pub const TARGET_MOVEMENT_SLOP: u32 = 16_000;

/// Time between two aphids when a session begins.
pub const APHID_SPAWN_PERIOD: u64 = 7_000_000;

/// Time between two caterpillars when a session begins.
pub const CATERPILLAR_SPAWN_PERIOD: u64 = 60_000_000;

/// Time between two aphids after a restart.
pub const APHID_RESPAWN_PERIOD: u64 = 10_000_000;

/// Time between two caterpillars after a restart.
pub const CATERPILLAR_RESPAWN_PERIOD: u64 = 100_000_000;

/// Session time over which the aphids' clock gains one more second per
/// second.
pub const APHID_RAMP: u64 = 120_000_000;

/// Session time over which the caterpillars' clock gains one more second
/// per second.
pub const CATERPILLAR_RAMP: u64 = 240_000_000;

/// Margin added round the visible area to find the line on which pests
/// appear.
pub const SPAWN_MARGIN: u32 = 20_000;

/// A selection box narrower and lower than this picks a single unit.
pub const SINGLE_SELECT_EXTENT: u32 = 5_000;

} // verus!
