//! Resolves which application window holds input focus, and — for known
//! browsers — which URL it shows, from the answers of the platform's OS
//! queries.
pub mod active_window;
pub mod config_sync;
pub mod events;
pub mod guarantees;
pub mod resolver;
pub mod state;
pub mod text;
