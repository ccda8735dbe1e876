//! Typed views over the wind and water family of sentences.

pub mod mwd;
pub mod mwv;
pub mod vbw;
pub mod vhw;
pub mod vwr;
pub mod vwt;
