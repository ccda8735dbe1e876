//! Typed views over the depth, weather and timing sentences.

pub mod dbs;
pub mod dbt;
pub mod dpt;
pub mod mda;
pub mod mtw;
pub mod rsa;
pub mod vlw;
pub mod xdr;
pub mod zda;
pub mod zfo;
pub mod ztg;
