use vstd::prelude::*;
use crate::parameters::{
    AirBaudRate, BaudRate, ForwardErrorCorrectionMode, IoDriveMode, Parameters, Parity,
    TransmissionMode, TransmissionPower, WakeupTime,
};

verus! {

/// Builds `Parameters` field by field. The address and the channel must be given: `build`
/// exists only once their slots hold a `u16` and a `u8`; every other field starts at its
/// setting's default.
pub struct ParametersBuilder<A, C> {
    pub address: A,
    pub channel: C,
    pub uart_parity: Parity,
    pub uart_rate: BaudRate,
    pub air_rate: AirBaudRate,
    pub transmission_mode: TransmissionMode,
    pub io_drive_mode: IoDriveMode,
    pub wakeup_time: WakeupTime,
    pub fec: ForwardErrorCorrectionMode,
    pub transmission_power: TransmissionPower,
}

impl Parameters {
    /// A builder with no address and no channel yet, and every other field at its default.
    pub fn builder() -> (b: ParametersBuilder<(), ()>)
        ensures
            b.uart_parity == Parity::NoParity,
            b.uart_rate == BaudRate::Bps9600,
            b.air_rate == AirBaudRate::Bps2400,
            b.transmission_mode == TransmissionMode::Transparent,
            b.io_drive_mode == IoDriveMode::PushPull,
            b.wakeup_time == WakeupTime::Ms250,
            b.fec == ForwardErrorCorrectionMode::On,
            b.transmission_power == TransmissionPower::Dbm30,
    {
        ParametersBuilder {
            address: (),
            channel: (),
            uart_parity: Parity::default(),
            uart_rate: BaudRate::default(),
            air_rate: AirBaudRate::default(),
            transmission_mode: TransmissionMode::default(),
            io_drive_mode: IoDriveMode::default(),
            wakeup_time: WakeupTime::default(),
            fec: ForwardErrorCorrectionMode::default(),
            transmission_power: TransmissionPower::default(),
        }
    }
}

impl<C> ParametersBuilder<(), C> {
    /// Sets the module address.
    pub fn address(self, address: u16) -> (b: ParametersBuilder<u16, C>)
        ensures
            b.address == address,
            b.channel == self.channel,
            b.uart_parity == self.uart_parity,
            b.uart_rate == self.uart_rate,
            b.air_rate == self.air_rate,
            b.transmission_mode == self.transmission_mode,
            b.io_drive_mode == self.io_drive_mode,
            b.wakeup_time == self.wakeup_time,
            b.fec == self.fec,
            b.transmission_power == self.transmission_power,
    {
        ParametersBuilder {
            address,
            channel: self.channel,
            uart_parity: self.uart_parity,
            uart_rate: self.uart_rate,
            air_rate: self.air_rate,
            transmission_mode: self.transmission_mode,
            io_drive_mode: self.io_drive_mode,
            wakeup_time: self.wakeup_time,
            fec: self.fec,
            transmission_power: self.transmission_power,
        }
    }
}

impl<A> ParametersBuilder<A, ()> {
    /// Sets the radio channel.
    pub fn channel(self, channel: u8) -> (b: ParametersBuilder<A, u8>)
        ensures
            b.address == self.address,
            b.channel == channel,
            b.uart_parity == self.uart_parity,
            b.uart_rate == self.uart_rate,
            b.air_rate == self.air_rate,
            b.transmission_mode == self.transmission_mode,
            b.io_drive_mode == self.io_drive_mode,
            b.wakeup_time == self.wakeup_time,
            b.fec == self.fec,
            b.transmission_power == self.transmission_power,
    {
        ParametersBuilder {
            address: self.address,
            channel,
            uart_parity: self.uart_parity,
            uart_rate: self.uart_rate,
            air_rate: self.air_rate,
            transmission_mode: self.transmission_mode,
            io_drive_mode: self.io_drive_mode,
            wakeup_time: self.wakeup_time,
            fec: self.fec,
            transmission_power: self.transmission_power,
        }
    }
}

impl<A, C> ParametersBuilder<A, C> {
    /// Sets the UART parity.
    pub fn uart_parity(self, uart_parity: Parity) -> (b: Self)
        ensures
            b == (ParametersBuilder { uart_parity, ..self }),
    {
        ParametersBuilder { uart_parity, ..self }
    }

    /// Sets the UART baud rate.
    pub fn uart_rate(self, uart_rate: BaudRate) -> (b: Self)
        ensures
            b == (ParametersBuilder { uart_rate, ..self }),
    {
        ParametersBuilder { uart_rate, ..self }
    }

    /// Sets the air data rate.
    pub fn air_rate(self, air_rate: AirBaudRate) -> (b: Self)
        ensures
            b == (ParametersBuilder { air_rate, ..self }),
    {
        ParametersBuilder { air_rate, ..self }
    }

    /// Sets the transmission mode.
    pub fn transmission_mode(self, transmission_mode: TransmissionMode) -> (b: Self)
        ensures
            b == (ParametersBuilder { transmission_mode, ..self }),
    {
        ParametersBuilder { transmission_mode, ..self }
    }

    /// Sets the IO drive mode.
    pub fn io_drive_mode(self, io_drive_mode: IoDriveMode) -> (b: Self)
        ensures
            b == (ParametersBuilder { io_drive_mode, ..self }),
    {
        ParametersBuilder { io_drive_mode, ..self }
    }

    /// Sets the wakeup time.
    pub fn wakeup_time(self, wakeup_time: WakeupTime) -> (b: Self)
        ensures
            b == (ParametersBuilder { wakeup_time, ..self }),
    {
        ParametersBuilder { wakeup_time, ..self }
    }

    /// Sets forward error correction.
    pub fn fec(self, fec: ForwardErrorCorrectionMode) -> (b: Self)
        ensures
            b == (ParametersBuilder { fec, ..self }),
    {
        ParametersBuilder { fec, ..self }
    }

    /// Sets the transmission power.
    pub fn transmission_power(self, transmission_power: TransmissionPower) -> (b: Self)
        ensures
            b == (ParametersBuilder { transmission_power, ..self }),
    {
        ParametersBuilder { transmission_power, ..self }
    }
}

impl ParametersBuilder<u16, u8> {
    /// The parameters that the builder holds.
    pub fn build(self) -> (p: Parameters)
        ensures
            p == (Parameters {
                address: self.address,
                channel: self.channel,
                uart_parity: self.uart_parity,
                uart_rate: self.uart_rate,
                air_rate: self.air_rate,
                transmission_mode: self.transmission_mode,
                io_drive_mode: self.io_drive_mode,
                wakeup_time: self.wakeup_time,
                fec: self.fec,
                transmission_power: self.transmission_power,
            }),
    {
        Parameters {
            address: self.address,
            channel: self.channel,
            uart_parity: self.uart_parity,
            uart_rate: self.uart_rate,
            air_rate: self.air_rate,
            transmission_mode: self.transmission_mode,
            io_drive_mode: self.io_drive_mode,
            wakeup_time: self.wakeup_time,
            fec: self.fec,
            transmission_power: self.transmission_power,
        }
    }
}

} // verus!
