//! Decoder and encoder for NMEA-0183 sentences: single-line,
//! comma-delimited, checksum-terminated ASCII messages used by marine
//! navigation instruments.
//!
//! A raw line is framed into a [`base::Nmea0183Base`] (sender, message
//! identifier, parameter list, checksum), validated against its XOR
//! checksum, classified into one of the known message-type variants, and
//! queried field-by-field through typed accessors.

pub mod ais;
pub mod base;
pub mod errors;
pub mod fields;
pub mod geo;
pub mod gps;
pub mod heading;
pub mod miscellaneous;
pub mod rational;
pub mod timedate;
pub mod units;
pub mod wind;
pub mod wire;

use vstd::prelude::*;

use crate::base::Nmea0183Base;
use crate::errors::FrameError;
use crate::wire::{matches_code, parse_parts, upper_text};

use crate::ais::vdm::Vdm;
use crate::gps::bwc::Bwc;
use crate::gps::bwr::Bwr;
use crate::gps::gbs::Gbs;
use crate::gps::gga::Gga;
use crate::gps::gll::Gll;
use crate::gps::grs::Grs;
use crate::gps::gsa::Gsa;
use crate::gps::gst::Gst;
use crate::gps::gsv::Gsv;
use crate::gps::gxa::Gxa;
use crate::gps::rmc::Rmc;
use crate::gps::trf::Trf;
use crate::heading::hdg::Hdg;
use crate::heading::hdm::Hdm;
use crate::heading::hdt::Hdt;
use crate::heading::rot::Rot;
use crate::heading::vtg::Vtg;
use crate::miscellaneous::dbs::Dbs;
use crate::miscellaneous::dbt::Dbt;
use crate::miscellaneous::dpt::Dpt;
use crate::miscellaneous::mda::Mda;
use crate::miscellaneous::mtw::Mtw;
use crate::miscellaneous::rsa::Rsa;
use crate::miscellaneous::vlw::Vlw;
use crate::miscellaneous::xdr::Xdr;
use crate::miscellaneous::zda::Zda;
use crate::wind::mwd::Mwd;
use crate::wind::mwv::Mwv;
use crate::wind::vhw::Vhw;
use crate::wind::vwr::Vwr;
use crate::wind::vwt::Vwt;

verus! {

/// A classified sentence: one variant per recognized message type, each
/// owning the framed sentence, plus a catch-all that keeps an
/// unrecognized sentence unchanged.
#[derive(Debug)]
pub enum Nmea0183 {
    BWC(Bwc),
    BWR(Bwr),
    DBS(Dbs),
    DBT(Dbt),
    DPT(Dpt),
    GBS(Gbs),
    GGA(Gga),
    GLL(Gll),
    GRS(Grs),
    GSA(Gsa),
    GST(Gst),
    GSV(Gsv),
    GXA(Gxa),
    HDG(Hdg),
    HDM(Hdm),
    HDT(Hdt),
    MDA(Mda),
    MTW(Mtw),
    MWD(Mwd),
    MWV(Mwv),
    RMC(Rmc),
    ROT(Rot),
    RSA(Rsa),
    TRF(Trf),
    VDM(Vdm),
    VHW(Vhw),
    VLW(Vlw),
    VTG(Vtg),
    VWR(Vwr),
    VWT(Vwt),
    XDR(Xdr),
    ZDA(Zda),
    Unknown(Nmea0183Base),
}

/// The structural parts of a framed sentence.
pub open spec fn base_parts(b: Nmea0183Base) -> (Seq<char>, Seq<char>, Seq<Seq<char>>, u8) {
    (b.sender@, b.message@, b.parameters.deep_view(), b.checksum)
}

/// Whether an upper-cased message identifier is in the classification
/// table.
pub open spec fn is_known_code(m: Seq<char>) -> bool {
    m == seq!['D', 'B', 'S']
        || m == seq!['D', 'B', 'T']
        || m == seq!['D', 'P', 'T']
        || m == seq!['G', 'G', 'A']
        || m == seq!['G', 'L', 'L']
        || m == seq!['G', 'S', 'A']
        || m == seq!['G', 'S', 'V']
        || m == seq!['H', 'D', 'G']
        || m == seq!['H', 'D', 'M']
        || m == seq!['H', 'D', 'T']
        || m == seq!['M', 'D', 'A']
        || m == seq!['M', 'T', 'W']
        || m == seq!['M', 'W', 'D']
        || m == seq!['M', 'W', 'V']
        || m == seq!['R', 'M', 'C']
        || m == seq!['R', 'O', 'T']
        || m == seq!['R', 'S', 'A']
        || m == seq!['V', 'D', 'M']
        || m == seq!['V', 'H', 'W']
        || m == seq!['V', 'L', 'W']
        || m == seq!['V', 'T', 'G']
        || m == seq!['V', 'W', 'R']
        || m == seq!['V', 'W', 'T']
        || m == seq!['X', 'D', 'R']
        || m == seq!['Z', 'D', 'A']
}

/// What classification yields for a sentence with the given parts: the
/// variant its upper-cased message identifier names, owning a framed
/// sentence with exactly those parts; any other identifier stays in
/// `Unknown`, the sentence unchanged.
pub open spec fn classification_of(parts: (Seq<char>, Seq<char>, Seq<Seq<char>>, u8), r: Nmea0183) -> bool {
    let m = upper_text(parts.1);
    &&& (m == seq!['D', 'B', 'S'] ==> r is DBS && base_parts(r->DBS_0.base_spec()) == parts)
    &&& (m == seq!['D', 'B', 'T'] ==> r is DBT && base_parts(r->DBT_0.base_spec()) == parts)
    &&& (m == seq!['D', 'P', 'T'] ==> r is DPT && base_parts(r->DPT_0.base_spec()) == parts)
    &&& (m == seq!['G', 'G', 'A'] ==> r is GGA && base_parts(r->GGA_0.base_spec()) == parts)
    &&& (m == seq!['G', 'L', 'L'] ==> r is GLL && base_parts(r->GLL_0.base_spec()) == parts)
    &&& (m == seq!['G', 'S', 'A'] ==> r is GSA && base_parts(r->GSA_0.base_spec()) == parts)
    &&& (m == seq!['G', 'S', 'V'] ==> r is GSV && base_parts(r->GSV_0.base_spec()) == parts)
    &&& (m == seq!['H', 'D', 'G'] ==> r is HDG && base_parts(r->HDG_0.base_spec()) == parts)
    &&& (m == seq!['H', 'D', 'M'] ==> r is HDM && base_parts(r->HDM_0.base_spec()) == parts)
    &&& (m == seq!['H', 'D', 'T'] ==> r is HDT && base_parts(r->HDT_0.base_spec()) == parts)
    &&& (m == seq!['M', 'D', 'A'] ==> r is MDA && base_parts(r->MDA_0.base_spec()) == parts)
    &&& (m == seq!['M', 'T', 'W'] ==> r is MTW && base_parts(r->MTW_0.base_spec()) == parts)
    &&& (m == seq!['M', 'W', 'D'] ==> r is MWD && base_parts(r->MWD_0.base_spec()) == parts)
    &&& (m == seq!['M', 'W', 'V'] ==> r is MWV && base_parts(r->MWV_0.base_spec()) == parts)
    &&& (m == seq!['R', 'M', 'C'] ==> r is RMC && base_parts(r->RMC_0.base_spec()) == parts)
    &&& (m == seq!['R', 'O', 'T'] ==> r is ROT && base_parts(r->ROT_0.base_spec()) == parts)
    &&& (m == seq!['R', 'S', 'A'] ==> r is RSA && base_parts(r->RSA_0.base_spec()) == parts)
    &&& (m == seq!['V', 'D', 'M'] ==> r is VDM && base_parts(r->VDM_0.base_spec()) == parts)
    &&& (m == seq!['V', 'H', 'W'] ==> r is VHW && base_parts(r->VHW_0.base_spec()) == parts)
    &&& (m == seq!['V', 'L', 'W'] ==> r is VLW && base_parts(r->VLW_0.base_spec()) == parts)
    &&& (m == seq!['V', 'T', 'G'] ==> r is VTG && base_parts(r->VTG_0.base_spec()) == parts)
    &&& (m == seq!['V', 'W', 'R'] ==> r is VWR && base_parts(r->VWR_0.base_spec()) == parts)
    &&& (m == seq!['V', 'W', 'T'] ==> r is VWT && base_parts(r->VWT_0.base_spec()) == parts)
    &&& (m == seq!['X', 'D', 'R'] ==> r is XDR && base_parts(r->XDR_0.base_spec()) == parts)
    &&& (m == seq!['Z', 'D', 'A'] ==> r is ZDA && base_parts(r->ZDA_0.base_spec()) == parts)
    &&& (!is_known_code(m) ==> r is Unknown && base_parts(r->Unknown_0) == parts)
}

/// Classifies a framed sentence by its upper-cased message identifier:
/// a pure, total mapping; unrecognized identifiers are a normal outcome,
/// not an error.
pub fn classify(b: Nmea0183Base) -> (r: Nmea0183)
    ensures
        classification_of(base_parts(b), r),
{
    if matches_code(b.message.as_str(), 'D', 'B', 'S') {
        Nmea0183::DBS(Dbs::new(b))
    } else if matches_code(b.message.as_str(), 'D', 'B', 'T') {
        Nmea0183::DBT(Dbt::new(b))
    } else if matches_code(b.message.as_str(), 'D', 'P', 'T') {
        Nmea0183::DPT(Dpt::new(b))
    } else if matches_code(b.message.as_str(), 'G', 'G', 'A') {
        Nmea0183::GGA(Gga::new(b))
    } else if matches_code(b.message.as_str(), 'G', 'L', 'L') {
        Nmea0183::GLL(Gll::new(b))
    } else if matches_code(b.message.as_str(), 'G', 'S', 'A') {
        Nmea0183::GSA(Gsa::new(b))
    } else if matches_code(b.message.as_str(), 'G', 'S', 'V') {
        Nmea0183::GSV(Gsv::new(b))
    } else if matches_code(b.message.as_str(), 'H', 'D', 'G') {
        Nmea0183::HDG(Hdg::new(b))
    } else if matches_code(b.message.as_str(), 'H', 'D', 'M') {
        Nmea0183::HDM(Hdm::new(b))
    } else if matches_code(b.message.as_str(), 'H', 'D', 'T') {
        Nmea0183::HDT(Hdt::new(b))
    } else if matches_code(b.message.as_str(), 'M', 'D', 'A') {
        Nmea0183::MDA(Mda::new(b))
    } else if matches_code(b.message.as_str(), 'M', 'T', 'W') {
        Nmea0183::MTW(Mtw::new(b))
    } else if matches_code(b.message.as_str(), 'M', 'W', 'D') {
        Nmea0183::MWD(Mwd::new(b))
    } else if matches_code(b.message.as_str(), 'M', 'W', 'V') {
        Nmea0183::MWV(Mwv::new(b))
    } else if matches_code(b.message.as_str(), 'R', 'M', 'C') {
        Nmea0183::RMC(Rmc::new(b))
    } else if matches_code(b.message.as_str(), 'R', 'O', 'T') {
        Nmea0183::ROT(Rot::new(b))
    } else if matches_code(b.message.as_str(), 'R', 'S', 'A') {
        Nmea0183::RSA(Rsa::new(b))
    } else if matches_code(b.message.as_str(), 'V', 'D', 'M') {
        Nmea0183::VDM(Vdm::new(b))
    } else if matches_code(b.message.as_str(), 'V', 'H', 'W') {
        Nmea0183::VHW(Vhw::new(b))
    } else if matches_code(b.message.as_str(), 'V', 'L', 'W') {
        Nmea0183::VLW(Vlw::new(b))
    } else if matches_code(b.message.as_str(), 'V', 'T', 'G') {
        Nmea0183::VTG(Vtg::new(b))
    } else if matches_code(b.message.as_str(), 'V', 'W', 'R') {
        Nmea0183::VWR(Vwr::new(b))
    } else if matches_code(b.message.as_str(), 'V', 'W', 'T') {
        Nmea0183::VWT(Vwt::new(b))
    } else if matches_code(b.message.as_str(), 'X', 'D', 'R') {
        Nmea0183::XDR(Xdr::new(b))
    } else if matches_code(b.message.as_str(), 'Z', 'D', 'A') {
        Nmea0183::ZDA(Zda::new(b))
    } else {
        Nmea0183::Unknown(b)
    }
}

impl Nmea0183 {
    /// Frames one raw line and classifies it.
    pub fn from_string(message: &String) -> (r: Result<Nmea0183, FrameError>)
        ensures
            match r {
                Ok(c) => parse_parts(message@) is Ok && classification_of(
                    parse_parts(message@)->Ok_0,
                    c,
                ),
                Err(e) => parse_parts(message@) == Err::<
                    (Seq<char>, Seq<char>, Seq<Seq<char>>, u8),
                    FrameError,
                >(e),
            },
    {
        match Nmea0183Base::from_string(message) {
            Ok(b) => Ok(classify(b)),
            Err(e) => Err(e),
        }
    }
}

/// Talker lookup across classified sentences; not provided yet.
pub fn sender(nmea0183: &Nmea0183) -> (r: Result<String, String>)
    ensures
        r is Err,
{
    let _ = nmea0183;
    Err(String::from_str("Not yet implemented"))
}

/// Message-identifier lookup across classified sentences; not provided
/// yet.
pub fn message(nmea0183: &Nmea0183) -> (r: Result<String, String>)
    ensures
        r is Err,
{
    let _ = nmea0183;
    Err(String::from_str("Not yet implemented"))
}

} // verus!
