//! Error values of the verified core, one tagged variant per failure kind.

use vstd::prelude::*;

verus! {

/// A device configuration was rejected at construction time.
#[derive(Clone, Copy, Debug, PartialEq, Eq, Structural)]
pub enum ConfigError {
    /// The device host address was empty.
    EmptyHost,
    /// The device port was neither the well-known default nor in the
    /// installer-configurable range.
    InvalidPort,
}

/// A register-level response did not have the expected shape.
#[derive(Clone, Copy, Debug, PartialEq, Eq, Structural)]
pub enum ProtocolError {
    /// A state read returned `got` registers instead of exactly two.
    WrongRegisterCount { got: usize },
}

} // verus!
