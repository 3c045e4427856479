//! Client-side core of an arena-game agent: the domain model, the wire codec
//! for outbound commands, the connect-with-retry policy and the agent's local
//! snapshot of the game.
pub mod model;
pub mod text;
pub mod number;
pub mod wire;
pub mod codec;
pub mod display;
pub mod connection;
pub mod agent;
pub mod logic;
