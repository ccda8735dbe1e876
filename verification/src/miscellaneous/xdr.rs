//! `XDR` — transducer measurements: repeated blocks of type letter,
//! value, unit letter and name.

use vstd::prelude::*;

use crate::base::{Nmea0183Base, plen, ptext};
use crate::errors::{FieldError, parse_failed};
use crate::fields::FieldParse;

verus! {

/// One transducer block, its value read as a `T`.
#[derive(Debug)]
pub struct Transducer<T> {
    pub xdr_type: char,
    pub xdr_data: T,
    pub xdr_units: char,
    pub xdr_name: String,
}

/// A typed view over a framed `XDR` sentence.
#[derive(Debug)]
pub struct Xdr {
    base: Nmea0183Base,
}

impl Xdr {
    /// The framed sentence this view reads.
    pub closed spec fn base_spec(self) -> Nmea0183Base {
        self.base
    }

    /// Wraps a framed sentence.
    pub fn new(base: Nmea0183Base) -> (r: Xdr)
        ensures
            r.base_spec() == base,
    {
        Xdr { base }
    }

    /// The measurement block at `index`: type letter, value as `T`, unit
    /// letter and transducer name from the four parameters starting at
    /// `4 * index`.  `MissingField` where the block runs past the whole
    /// blocks the sentence carries; an empty letter field or unparsable
    /// value fails the read.
    pub fn measurements<T: FieldParse>(&self, index: usize) -> (r: Result<Transducer<T>, FieldError>)
        ensures
            ({
                let b = self.base_spec();
                let k = 4 * (index as int);
                if index as int >= plen(b) / 4 {
                    r == Err::<Transducer<T>, FieldError>(FieldError::MissingField)
                } else if ptext(b, k).len() == 0 {
                    r is Err && r->Err_0 is ParseFailure && r->Err_0->ParseFailure_0@ == ptext(
                        b,
                        k,
                    )
                } else {
                    match T::parse_text(ptext(b, k + 1)) {
                        None => parse_failed(r, ptext(b, k + 1)),
                        Some(v) => if ptext(b, k + 2).len() == 0 {
                            r is Err && r->Err_0 is ParseFailure && r->Err_0->ParseFailure_0@
                                == ptext(b, k + 2)
                        } else {
                            &&& r is Ok
                            &&& r->Ok_0.xdr_type == ptext(b, k)[0]
                            &&& r->Ok_0.xdr_data == v
                            &&& r->Ok_0.xdr_units == ptext(b, k + 2)[0]
                            &&& r->Ok_0.xdr_name@ == ptext(b, k + 3)
                        },
                    }
                }
            }),
    {
        let len: usize = self.base.parameters.len();
        if index >= len / 4 {
            return Err(FieldError::MissingField);
        }
        let k: usize = 4 * index;
        let xdr_type = match self.base.first_char(k) {
            Ok(c) => c,
            Err(e) => {
                return Err(e);
            },
        };
        let xdr_data: T = match self.base.parameter::<T>(k + 1) {
            Ok(v) => v,
            Err(e) => {
                return Err(e);
            },
        };
        let xdr_units = match self.base.first_char(k + 2) {
            Ok(c) => c,
            Err(e) => {
                return Err(e);
            },
        };
        let xdr_name = match self.base.parameter_text(k + 3) {
            Ok(s) => s,
            Err(e) => {
                return Err(e);
            },
        };
        Ok(Transducer { xdr_type, xdr_data, xdr_units, xdr_name })
    }
}

} // verus!
