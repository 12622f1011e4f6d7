//! Drives a desktop interface by synthesising input at screen locations and
//! checking that the interface visibly reacted.
//!
//! The library holds the decisions: the screen-bounded coordinate model, the
//! resolution of a target into an on-screen point, the comparison of frames
//! inside a check-zone, and the state machines that run a verb and wait for
//! the interface to change. Capturing the screen, moving the cursor and
//! searching pixels are done by the caller, which hands the results back.
pub mod action;
pub mod click;
pub mod engine;
pub mod errors;
pub mod frame;
pub mod geometry;
pub mod input;
pub mod location;
pub mod overlay;
pub mod strategy;
