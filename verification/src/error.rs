//! Error types shared across the library.

use vstd::prelude::*;

verus! {

/// Failure while decoding a broadcast section or descriptor.
///
/// Broadcast bytes are untrusted input: every malformed shape maps to a
/// variant here instead of a panic.
#[derive(Debug, Copy, Clone, PartialEq, Eq, Structural)]
pub enum DecodeError {
    /// The buffer ends before the field being read.
    ShortBuffer,
    /// A length field points outside the enclosing buffer or past its
    /// own allowed maximum.
    LengthOutOfRange,
    /// Bits that the wire format fixes at zero were set.
    ReservedBitsSet,
    /// A one-byte code was outside the set of values the format defines.
    UnexpectedValue,
}

/// Failure while parsing a VDR-style channel definition line.
#[derive(Debug, Copy, Clone, PartialEq, Eq, Structural)]
pub enum VdrParseError {
    /// The channel definition line is missing at least one column.
    MissingColumn,
    /// A field that must hold an integer did not parse as one.
    IntParse,
    /// A value outside of accepted variants was found as parameter data.
    UnexpectedParameterValue,
    /// An unknown parameter letter was found.
    UnknownParameter,
}

/// Failure while folding a new observation into the scan result.
#[derive(Debug, Copy, Clone, PartialEq, Eq, Structural)]
pub enum ScanError {
    /// Two signal strength readings of incompatible scale kinds were
    /// compared; one tuner reports one scale kind throughout a scan, so
    /// this is an internal-consistency violation.
    InconsistentSignalScale,
    /// The batch of sections handed to the decoder does not line up with
    /// the acquisition plan built from the PAT.
    PlanMismatch,
}

} // verus!
