//! Launch-and-supervise engine of a local development server launcher.
//!
//! The library decides; the caller performs the side effects (binding
//! sockets, spawning processes, sleeping, printing) and reports back.

pub mod text;
pub mod port_scan;
pub mod readiness;
pub mod relay;
pub mod platform;
pub mod launch;
pub mod config;
