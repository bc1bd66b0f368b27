//! Screen-flow controller and decision capture for a dial-driven experiment.
//!
//! A session walks a participant through a fixed sequence of phases. Each phase
//! shows one screen at a time; rating screens turn raw dial rotation into a
//! bounded value, a debounced series of samples and one decision of record.
//! Everything that touches the outside world (the dial, the video player, the
//! clock, the disk) is handed in as plain values or handed out as requests.

pub mod arc_input;
mod chance;
pub mod config;
pub mod dial;
pub mod document;
pub mod events;
pub mod sampler;
pub mod screen;
pub mod script;
pub mod session;
pub mod text;
pub mod trials;
pub mod views;
