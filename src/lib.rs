//! Coordination logic of a shop-machine front panel: input edge detection,
//! a latest-value signal slot, the operating-mode state machine with its
//! machine-running lockout, the display presenter, the status LEDs and the
//! Wi-Fi connection supervisor.
pub mod signal;
pub mod sampler;
pub mod mode;
pub mod display;
pub mod leds;
pub mod network;
pub mod control;
