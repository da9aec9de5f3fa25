//! Game-play rules of a small top-down action game: the player character
//! (movement, facing, health, throwing) and the demon king boss (health and
//! its attack / teleport schedule). Everything that touches the engine
//! (nodes, sounds, particles, floating-point geometry) lives outside this
//! library; here each engine callback is a step from state and event to the
//! next state and the action to perform.

pub mod player;
pub mod demon_king;
