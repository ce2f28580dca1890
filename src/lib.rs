//! State and decisions behind a single presentable surface: the surface
//! configuration derived from the window, coalesced resize requests applied
//! just before a frame is acquired, and the event-driven driver that owns it.
pub mod config;
pub mod context;
pub mod driver;
pub mod laws;
pub mod resize;
pub mod size;
