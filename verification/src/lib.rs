//! Scripted terminal demos: stages of typed messages and shell commands that an
//! operator steps through, with the engine that plays them back.

pub mod app;
pub mod config;
pub mod laws;
pub mod model;
pub mod session;
pub mod text;
pub mod ui;
