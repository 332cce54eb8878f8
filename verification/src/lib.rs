//! Event-driven control core of a battery-powered motion-sensing device:
//! a movement tracker that turns interrupt timestamps into a sustained-movement
//! verdict, an LED sequencer that paces a finite blink pattern, and the device
//! state machine that coordinates the two.

pub mod device;
pub mod led;
pub mod movement;
