//! A hybrid particle/grid fluid solver in fixed-point arithmetic, and the
//! scheduler that decides how many solver steps each rendered frame gets.

pub mod advection;
pub mod error;
pub mod fixed;
pub mod grid;
pub mod particles;
pub mod projection;
pub mod renderer;
pub mod rest;
pub mod scene;
pub mod scheduler;
pub mod simulation;
pub mod solver;
pub mod transfer;

