//! Wire codec, per-peer sequence tracking and the decision logic of a
//! fixed-timestep multiplayer simulation.
pub mod wire;
pub mod id;
pub mod packet;
pub mod frame;
pub mod connection;
pub mod engine;
