//! Decision logic of the Goldline overlay, a fixed-angle guide for Gold Miner:
//! when the overlay lets the mouse through to the game ([`input`]), how the
//! display mode changes ([`mode`]), when the configuration is written back
//! ([`persist`]), how the claw tracker paces and reports its work
//! ([`tracking`]), which settings values are well formed ([`config`]), which
//! pixels look like the rope ([`vision`]), and how preview frames are encoded
//! for the control panel ([`preview`]).
pub mod config;
pub mod input;
pub mod mode;
pub mod persist;
pub mod preview;
pub mod tracking;
pub mod vision;

pub use input::should_ignore;
