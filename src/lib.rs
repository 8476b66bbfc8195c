//! Enumerates shader variants, derives their output names, runs the optimizer
//! over each of them in parallel and gathers what failed.

pub mod variant;
pub mod naming;
pub mod config;
pub mod enumerate;
pub mod optimize;
pub mod runner;
