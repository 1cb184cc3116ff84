//! The rules of a small real-time garden skirmish, stated and proved.
//!
//! Crop units and pests perceive one another, chase and attack; plots grow
//! crops that ripen, decay, and are harvested into new units or composted
//! into the currency that pays for planting. Everything here works on
//! integers: positions are in thousandths of a world unit, times in
//! microseconds, health in thousandths of a point. Rendering, physics,
//! input and sound belong to the program around this library, which hands
//! in plain values and carries out what comes back.

pub mod arena;
pub mod consts;
pub mod game;
pub mod geometry;
pub mod harvest;
pub mod health;
pub mod plot;
pub mod random;
pub mod ring;
pub mod selection;
pub mod sim;
pub mod spawner;
pub mod target;
pub mod unit;
