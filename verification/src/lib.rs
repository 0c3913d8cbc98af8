//! Verified core of an e-paper status board: the panel's lifecycle, the frame
//! it shows, the status LED's program, and the drawable units composed onto
//! the frame. Hardware, threads and the network stay with the embedding
//! firmware, which performs the actions this crate decides on and reports
//! what came of them.

pub mod display;
pub mod frame;
pub mod internal_led;
pub mod layouts;
pub mod signal;
pub mod widgets;
pub mod wifi;
