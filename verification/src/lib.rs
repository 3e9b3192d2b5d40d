//! Control core of a two-eyed LED badge: debounced buttons, duty-cycle
//! mapping for the eyes, the display-mode cycle and the active/idle loop.

pub mod button;
pub mod control;
pub mod eye;
pub mod frame;
pub mod mode;
pub mod timing;
pub mod watchdog;
