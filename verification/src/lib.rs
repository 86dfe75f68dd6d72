//! A minimal real-time rendering loop: a resizable off-screen pixel surface,
//! a procedural gradient generator that fills it each frame, presentation
//! requests that describe how the surface reaches the window, non-blocking
//! controller polling, and an event-driven window procedure that ties them
//! together. The window system and controller hardware sit behind the
//! process boundary; this library holds the logic between them.

pub mod context;
pub mod events;
pub mod geometry;
pub mod gradient;
pub mod input;
pub mod main_loop;
pub mod present;
pub mod pump;
pub mod surface;
pub mod window_proc;
