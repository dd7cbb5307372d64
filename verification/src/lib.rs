//! Host-independent logic of an embedded GPUI host: 8-bit color values and
//! their hex notation, the main-thread task queue, virtual-window input
//! state, and the component theme and button models.

pub mod color;
pub mod hex;
pub mod dispatcher;
pub mod platform;
pub mod component;
