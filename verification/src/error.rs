//! Errors of the transport and of the module drivers.

use vstd::prelude::*;

verus! {

/// Everything that can go wrong while talking to a module. Failures of the
/// physical resources are handed on as they came, tagged by their origin.
#[derive(Clone, Copy, Debug)]
pub enum GoModuleError<SPI, ResetPin, InterruptPin> {
    /// The duplex channel failed.
    SPI(SPI),
    /// The reset line failed.
    ResetPin(ResetPin),
    /// The ready line failed.
    InterruptPin(InterruptPin),
    /// A resource could not be acquired when the slot was set up.
    ModuleSetupError(ModuleSetupError),
    /// The module did not keep to the protocol.
    CommunicationError(CommunicationError),
}

/// The resource that could not be acquired or configured.
#[derive(Clone, Copy, PartialEq, Eq, Structural, Debug)]
pub enum ModuleSetupError {
    InterruptPin,
    ResetPin,
    Spi,
}

/// Protocol failures.
#[derive(Clone, Copy, PartialEq, Eq, Structural, Debug)]
pub enum CommunicationError {
    /// The ready line was not asserted when a transfer was due.
    ModuleUnavailable,
    /// The response does not carry its own checksum or length.
    ChecksumIncorrect,
    /// The response is intact but answers another request.
    UnableToSerDe,
}

} // verus!
