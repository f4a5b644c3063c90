//! Process launching, elevation, service control and mod linking for a game
//! launcher, stated as verified plans that a thin host layer executes.

pub mod text;
pub mod paths;
pub mod command;
pub mod elevation;
pub mod runtime;
pub mod modlink;
pub mod service;
pub mod launch;
pub mod commands;
pub mod loader_config;
pub mod execution;
