//! RustAdmin: the core logic of a bootstrap admin panel (theme and frontend-template
//! switcher, route-driven access, site settings, credential checks), independent of the web
//! server that runs it.

pub mod assembly;
pub mod config;
pub mod errors;
pub mod helpers;
pub mod migrations;
pub mod modules;
