//! Decision logic of the UnaOS kernel's input, render and bring-up services.
//!
//! The kernel binary drives hardware; every choice it makes about what to do with an
//! input event, when a witness line is due, which core inherits a dead core's role or
//! how a panel is carved up is a function of plain values, and those functions live
//! here with their contracts.

pub mod event;
pub mod gate;
pub mod keys;
pub mod wake;
pub mod rehome;
pub mod sat;
pub mod click;
pub mod rollup;
pub mod forward;
pub mod fold;
pub mod frame;
pub mod route;
pub mod geometry;
pub mod placement;
pub mod tegra;
pub mod seams;
pub mod bootlog;
pub mod verdicts;
