//! Trip-progress engine for turn-by-turn navigation.
//!
//! Given a precomputed route and a stream of location fixes, the engine tracks
//! which maneuver step the traveler is on, decides when to move to the next one,
//! and reports a UI-ready navigation state after every input.
//!
//! All quantities are fixed-point integers: coordinates are in units of 1e-7
//! degree and distances in millimetres.
pub mod models;
pub mod navigation_controller;
