//! Readings of the voltage converter as exact quantities.
//!
//! The converter counts in steps of 187.5 microvolts. Voltages are kept in
//! nanovolts, so that every reading is a whole number.

use vstd::prelude::*;
use crate::text::{decimal, fixed, push_decimal, push_fixed, text_of, trim, trimmed};

verus! {

/// An input of the converter.
#[derive(Clone, Copy, Debug, PartialEq, Eq, Structural)]
pub enum Channel {
    A0,
    A1,
    A2,
    A3,
}

/// Why a measurement gave no reading.
#[derive(Clone, Debug, PartialEq, Eq)]
pub enum MeasureError {
    /// The conversion was not finished in time.
    WouldBlock,
    /// The bus failed; the text says how.
    Bus(String),
    /// The converter refused the request.
    InvalidInput,
}

/// A measurement error as plain values.
pub enum MeasureFault {
    WouldBlock,
    Bus(Seq<char>),
    InvalidInput,
}

impl View for MeasureError {
    type V = MeasureFault;

    open spec fn view(&self) -> MeasureFault {
        match *self {
            MeasureError::WouldBlock => MeasureFault::WouldBlock,
            MeasureError::Bus(text) => MeasureFault::Bus(text@),
            MeasureError::InvalidInput => MeasureFault::InvalidInput,
        }
    }
}

/// The note that goes into a record for a measurement error.
pub open spec fn fault_note(fault: MeasureFault) -> Seq<char> {
    match fault {
        MeasureFault::WouldBlock => "err: would block"@,
        MeasureFault::Bus(text) => "err: i2c: "@ + text,
        MeasureFault::InvalidInput => "err: invalid input data"@,
    }
}

impl MeasureError {
    /// The note that goes into a record for this error.
    pub fn note(&self) -> (note: String)
        ensures
            note@ == fault_note(self@),
    {
        match self {
            MeasureError::WouldBlock => String::from_str("err: would block"),
            MeasureError::Bus(text) => String::from_str("err: i2c: ").concat(text.as_str()),
            MeasureError::InvalidInput => String::from_str("err: invalid input data"),
        }
    }
}

/// The size of one count of the converter, in nanovolts.
pub const STEP_NANOVOLTS: i64 = 187_500;

/// One volt in nanovolts.
pub const VOLT: i64 = 1_000_000_000;

/// The voltage that a count of the converter stands for, in nanovolts.
pub open spec fn nanovolts_of(raw: int) -> int {
    raw * 187_500
}

/// The voltage that a count of the converter stands for, in nanovolts.
pub fn to_nanovolts(raw: i16) -> (nanovolts: i64)
    ensures
        nanovolts == nanovolts_of(raw as int),
{
    (raw as i64) * STEP_NANOVOLTS
}

/// The size of a quantity, whatever its sign.
pub open spec fn magnitude(x: int) -> nat {
    if x < 0 {
        (-x) as nat
    } else {
        x as nat
    }
}

/// A voltage in volts, as a decimal fraction: a minus sign if it is
/// negative, the whole volts, a point, and the digits after the point down
/// to the nanovolt, at least one of them and no zeros after the last other
/// digit. 3 300 000 000 nV reads `3.3`, 4 000 000 000 nV reads `4.0`.
pub open spec fn volts_of(nanovolts: int) -> Seq<char> {
    let size = magnitude(nanovolts);
    (if nanovolts < 0 {
        seq!['-']
    } else {
        Seq::empty()
    }) + decimal(size / 1_000_000_000) + seq!['.'] + trimmed(fixed(size % 1_000_000_000, 9))
}

/// A voltage in volts, as a decimal fraction.
pub fn volts_text(nanovolts: i64) -> (text: String)
    ensures
        text@ == volts_of(nanovolts as int),
{
    let mut text = String::new();
    let size: u64 = if nanovolts < 0 {
        text.push('-');
        ((-(nanovolts + 1)) as u64) + 1
    } else {
        nanovolts as u64
    };
    assert(size == magnitude(nanovolts as int));
    push_decimal(&mut text, size / 1_000_000_000);
    text.push('.');
    let mut digits: Vec<char> = Vec::new();
    push_fixed(&mut digits, size % 1_000_000_000, 9);
    trim(&mut digits);
    text.append(text_of(&digits).as_str());
    assert(text@ =~= volts_of(nanovolts as int));
    text
}

} // verus!
