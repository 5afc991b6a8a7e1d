//! Control core for a small battery-powered lighting device with two RGB
//! "eye" indicators and one bicolor "heart" indicator.
//!
//! The library holds the verified logic only: a cyclic hue sweep that turns a
//! tick counter into eye colors, a heartbeat pulse generator with saturating
//! decay, a temperature-driven mood state machine, and the mapping of all of
//! these onto per-channel duty values.  Hardware concerns (PWM registers, the
//! ADC, the per-iteration delay) are capability interfaces that a driver
//! program supplies from outside; the core only decides which duty value each
//! of the nine channels should carry and how long the iteration should wait.

pub mod color;
pub mod config;
pub mod control;
pub mod mapper;
pub mod pulse;
pub mod temperature;
