//! Typed views over the heading family of sentences.

pub mod hdg;
pub mod hdm;
pub mod hdt;
pub mod rot;
pub mod vtg;
