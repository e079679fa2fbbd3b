//! A harness for tabular reinforcement learning on a simulated body: kind-checked
//! access to the simulation's flat state buffers, digitization of observations into
//! a flat state index, a dense action-value table with its action-selection
//! strategies, and the reset/step protocol of an episode.

pub mod joint;
pub mod obj;
pub mod error;
pub mod physics;
pub mod digitize;
pub mod state;
pub mod strategy;
pub mod qtable;
pub mod environment;
pub mod agent;
