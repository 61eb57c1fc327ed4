//! Hardware-control core of a small wheeled robot: motor drive, button LEDs,
//! the SN3218 underlight register protocol, button edge detection and
//! ultrasonic ranging, each as a verified model of what the hardware is told.
pub mod config;
pub mod error;
pub mod utils;
pub mod motors;
pub mod underlight;
pub mod buttons;
pub mod ranger;
pub mod frame;
