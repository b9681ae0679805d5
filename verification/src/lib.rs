//! Core logic of a terminal controller for a Memmert oven reached over the
//! AtmoWeb interface: operating modes, setpoint tiles, the heating-curve editor
//! and its runner, the live history buffer, key dispatch and the AtmoWeb
//! request framing.
//!
//! Temperatures and percentages are fixed-point numbers in thousandths of
//! their unit (see [`fixed`]); curve times are whole nanoseconds.

pub mod app;
pub mod atmoweb;
pub mod cli;
pub mod fixed;
pub mod tui;
pub mod widgets;
