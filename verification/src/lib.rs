//! Control core of a single-node lighting fixture: timing detection for the
//! DMX line, button gestures, host commands, the event router that owns the
//! device state, the actuator models and the status stream.

pub mod channels;
pub mod event_router;
pub mod led;
pub mod pwm;
pub mod usb_io;
pub mod dmx;
pub mod button;
pub mod text;
pub mod ansi;
pub mod logger;
