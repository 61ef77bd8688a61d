use vstd::prelude::*;

verus! {

/// What can go wrong while talking to a module.
#[derive(Copy, Clone, Debug, PartialEq, Eq, Structural)]
pub enum Error {
    /// Failed to read model data.
    ReadModelData,
    /// Failed to read parameters.
    ReadParameters,
    /// Failed to set parameters.
    SetParameters,
    /// Failed to read serial port.
    SerialRead,
    /// Failed to write serial port.
    SerialWrite,
    /// Failed to wait for AUX pin.
    AuxPin,
    /// Failed to process parameters.
    Parameter { source: crate::parameters::error::Error },
}

} // verus!
