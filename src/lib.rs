//! Flow-field simulation engine: a time-varying angle field sampled from
//! three-dimensional gradient noise, and particles advected through it and
//! painted onto an accumulation raster that keeps their trails.
//!
//! All real-valued quantities are fixed-point integers (see `fixed`). The
//! noise field itself, and the sine and cosine of headings, are evaluated
//! by the host: the engine says where to sample and what to do with the
//! samples.
//!
//! - `time`: the effective time coordinate, with pause and resume.
//! - `grid`: noise coordinates of canvas points and the angle grid.
//! - `field`: heatmap cells and arrows drawn from the angle grid.
//! - `particles`: the particle strategies and their advection.
//! - `accumulation`: the raster that particles are painted onto.
//! - `config`: the live settings and their defaults.
//! - `simulation`: all of it over one canvas, driven by host commands.

pub mod accumulation;
pub mod config;
pub mod field;
pub mod fixed;
pub mod grid;
pub mod particles;
mod random;
pub mod simulation;
pub mod time;
