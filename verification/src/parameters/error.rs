use vstd::prelude::*;

verus! {

/// A field of the parameter block holds a code that no setting has.
#[derive(Copy, Clone, Debug, PartialEq, Eq, Structural)]
pub enum Error {
    /// Invalid UART parity.
    InvalidUartParity { value: u8 },
    /// Invalid baud rate.
    InvalidBaudrate { rate: u8 },
    /// Invalid transmission mode.
    InvalidTransmissionMode { value: u8 },
    /// Invalid IO drive mode.
    InvalidIoDriveMode { value: u8 },
    /// Invalid wakeup time.
    InvalidWakeupTime { value: u8 },
    /// Invalid Forward Error Correction mode.
    InvalidFecMode { value: u8 },
    /// Invalid transmission power.
    InvalidTransmissionPower { value: u8 },
}

} // verus!
