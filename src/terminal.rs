//! The plain values exchanged with the terminal: its size, the input events
//! it reports, and the colours it can paint with.
pub mod event;
mod size;
pub mod style;

pub use size::Size;
