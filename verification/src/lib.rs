//! Core logic of a real-time shopping simulation: a player and a crowd of
//! autonomous shoppers compete for items on shelves under a countdown.
//!
//! The library holds the decision logic only: the spatial nearest-shelf
//! query, sensor-zone tracking of the shelf an agent overlaps, per-agent
//! inventories and level objectives, the panic broadcast, the four-state
//! shopper behavior machine, and the session clock with its win/loss
//! resolution. Positions are integer world coordinates and durations are
//! integer milliseconds; rendering, input and rigid-body physics live with
//! the host and are fed plain values.

pub mod geom;
pub mod inventory;
pub mod items;
pub mod level;
pub mod player;
mod rng;
pub mod sensor;
pub mod session;
pub mod shopper;
pub mod spatial;
pub mod timers;
