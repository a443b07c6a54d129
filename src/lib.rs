//! Status-badge rendering and tray/window coordination for a usage-monitoring
//! tray companion.

pub mod canvas;
pub mod text;
pub mod badge;
pub mod menu;
pub mod windows;
pub mod sidecar;
pub mod events;
pub mod state;
pub mod laws;
