//! Remote synchronisation targets, the jobs run against them, and the
//! interaction rules of the terminal session that drives both.

pub mod config;
pub mod errors;
pub mod jobs;
pub mod json;
pub mod order;
pub mod rclone;
pub mod remote;
pub mod text;
pub mod ui;
pub mod worker;

pub use config::GalionApp;
pub use errors::GalionError;
