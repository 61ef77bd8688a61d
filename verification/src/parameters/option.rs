pub mod fec_mode;
pub mod io_drive_mode;
pub mod transmission_mode;
pub mod transmission_power;
pub mod wakeup_time;

use vstd::prelude::*;
pub use self::fec_mode::ForwardErrorCorrectionMode;
pub use self::io_drive_mode::IoDriveMode;
pub use self::transmission_mode::TransmissionMode;
pub use self::transmission_power::TransmissionPower;
pub use self::wakeup_time::WakeupTime;

verus! {

/// The two switches that open the option byte.
#[derive(Copy, Clone, Debug, PartialEq, Eq, Structural)]
pub struct Option {
    transmission_mode: TransmissionMode,
    io_drive_mode: IoDriveMode,
}

} // verus!
