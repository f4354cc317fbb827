//! The library's error type: a parameter blob that failed validation at
//! load time, which is a fatal startup condition.

use vstd::prelude::*;

verus! {

/// `std::io::Error`, declared so that the decoder's error can be carried
/// for diagnostics.
#[verifier::external_type_specification]
#[verifier::external_body]
pub struct ExIoError(std::io::Error);

/// The four zk-SNARK circuits the protocol proves statements in.
#[derive(Clone, Copy, Debug, PartialEq, Eq, Structural)]
pub enum CircuitKind {
    Spend,
    Receipt,
    CreateAsset,
    MintAsset,
}

/// A fatal load-time failure: the named circuit's parameter blob was
/// malformed, truncated, or held invalid points. The decoder's error is
/// carried for diagnostics.
#[derive(Debug)]
pub enum SaplingError {
    InvalidParameters(CircuitKind, std::io::Error),
}

} // verus!
