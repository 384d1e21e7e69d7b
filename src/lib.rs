//! Packaging and deployment pipeline for Decky plugins: manifest resolution,
//! container build planning, remote binary verification, build-tree
//! assembly, archive layout and remote deployment.

pub mod assemble;
pub mod config;
pub mod deploy;
pub mod engine;
pub mod fetch;
pub mod package;
pub mod paths;
pub mod pipeline;
pub mod plugin;
pub mod text;
