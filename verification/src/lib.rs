//! Provisioning of cross-compilation toolchains: target resolution, download
//! and extraction planning, per-platform toolchain description and the
//! assembly of the build environment.

pub mod text;
pub mod config;
pub mod envmap;
pub mod env;
pub mod cli;
pub mod error;
pub mod download;
pub mod platform;
pub mod runner;
pub mod cargo;
pub mod orchestrator;
