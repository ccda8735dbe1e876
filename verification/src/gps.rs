//! Typed views over the GPS family of sentences.

pub mod bwc;
pub mod bwr;
pub mod gbs;
pub mod gga;
pub mod gll;
pub mod grs;
pub mod gsa;
pub mod gst;
pub mod gsv;
pub mod gxa;
pub mod rmc;
pub mod trf;
