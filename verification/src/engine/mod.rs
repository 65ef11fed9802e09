//! The engine's own components: cameras, controls, scene switching, timers
//! and data-decoding utilities.

pub mod camera;
pub mod control;
pub mod scene;
pub mod timer;
pub mod util;
pub mod frame;
pub mod events;
