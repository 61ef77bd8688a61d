pub mod air_baudrate;
pub mod builder;
pub mod baudrate;
pub mod error;
pub mod option;
pub mod uart_parity;

use vstd::prelude::*;
use vstd::std_specs::convert::FromSpecImpl;
pub use self::air_baudrate::AirBaudRate;
pub use self::baudrate::BaudRate;
pub use self::builder::ParametersBuilder;
pub use self::error::Error;
pub use self::option::{
    ForwardErrorCorrectionMode, IoDriveMode, TransmissionMode, TransmissionPower, WakeupTime,
};
pub use self::uart_parity::Parity;

verus! {

/// Whether the module keeps written parameters over a power cycle.
#[derive(Copy, Clone, Debug, PartialEq, Eq, Structural)]
pub enum Persistence {
    Temporary,
    Permanent,
}

impl Persistence {
    /// The head byte of a parameter write that asks for this persistence.
    pub open spec fn code(self) -> u8 {
        match self {
            Persistence::Temporary => 0xC2,
            Persistence::Permanent => 0xC0,
        }
    }
}

impl Persistence {
    /// A write that keeps the parameters over a power cycle starts with 0xC0, one that
    /// does not with 0xC2.
    pub proof fn lemma_code_names_persistence(self)
        ensures
            self.code() == 0xC0 <==> self is Permanent,
            self.code() == 0xC2 <==> self is Temporary,
    {
    }
}

impl Default for Persistence {
    fn default() -> (r: Self)
        ensures
            r == Persistence::Temporary,
    {
        Persistence::Temporary
    }
}

impl From<Persistence> for u8 {
    fn from(mode: Persistence) -> (r: u8)
        ensures
            r == 0xC2 <==> mode is Temporary,
            r == 0xC0 <==> mode is Permanent,
    {
        match mode {
            Persistence::Temporary => 0xC2,
            Persistence::Permanent => 0xC0,
        }
    }
}

impl FromSpecImpl<Persistence> for u8 {
    open spec fn obeys_from_spec() -> bool {
        true
    }

    open spec fn from_spec(v: Persistence) -> u8 {
        v.code()
    }
}

/// The operating parameters of a module, as its five-byte parameter block holds them.
#[derive(Clone, Debug, PartialEq, Eq, Structural)]
pub struct Parameters {
    pub address: u16,
    pub channel: u8,
    pub uart_parity: Parity,
    pub uart_rate: BaudRate,
    pub air_rate: AirBaudRate,
    pub transmission_mode: TransmissionMode,
    pub io_drive_mode: IoDriveMode,
    pub wakeup_time: WakeupTime,
    pub fec: ForwardErrorCorrectionMode,
    pub transmission_power: TransmissionPower,
}

impl Parameters {
    /// Byte 2 of the block: parity in bits 7-6, UART rate in bits 5-3, air rate in bits 2-0.
    pub open spec fn speed_byte(self) -> u8 {
        (self.uart_parity.code() * 64 + self.uart_rate.code() * 8 + self.air_rate.code()) as u8
    }

    /// Byte 4 of the block: transmission mode in bit 7, IO drive mode in bit 6,
    /// wakeup time in bits 5-3, FEC in bit 2 and transmission power in bits 1-0.
    pub open spec fn option_byte(self) -> u8 {
        (self.transmission_mode.code() * 128 + self.io_drive_mode.code() * 64
            + self.wakeup_time.code() * 8 + self.fec.code() * 4
            + self.transmission_power.code()) as u8
    }

    /// The parameter block: address high byte, address low byte, speed, channel, options.
    pub open spec fn encode(self) -> Seq<u8> {
        seq![
            (self.address / 256) as u8,
            (self.address % 256) as u8,
            self.speed_byte(),
            self.channel,
            self.option_byte(),
        ]
    }

    /// What a parameter block means, field by field; the first field whose code
    /// has no setting gives the error.
    pub open spec fn decode(bytes: Seq<u8>) -> Result<Parameters, Error>
        recommends
            bytes.len() == 5,
    {
        let speed = bytes[2];
        let options = bytes[4];
        match Parity::decode(speed / 64) {
            Err(e) => Err(e),
            Ok(uart_parity) => match BaudRate::decode((speed / 8) % 8) {
                Err(e) => Err(e),
                Ok(uart_rate) => match AirBaudRate::decode(speed % 8) {
                    Err(e) => Err(e),
                    Ok(air_rate) => match TransmissionMode::decode(options / 128) {
                        Err(e) => Err(e),
                        Ok(transmission_mode) => match IoDriveMode::decode((options / 64) % 2) {
                            Err(e) => Err(e),
                            Ok(io_drive_mode) => match WakeupTime::decode((options / 8) % 8) {
                                Err(e) => Err(e),
                                Ok(wakeup_time) => match ForwardErrorCorrectionMode::decode(
                                    (options / 4) % 2,
                                ) {
                                    Err(e) => Err(e),
                                    Ok(fec) => match TransmissionPower::decode(options % 4) {
                                        Err(e) => Err(e),
                                        Ok(transmission_power) => Ok(
                                            Parameters {
                                                address: (bytes[0] * 256 + bytes[1]) as u16,
                                                channel: bytes[3],
                                                uart_parity,
                                                uart_rate,
                                                air_rate,
                                                transmission_mode,
                                                io_drive_mode,
                                                wakeup_time,
                                                fec,
                                                transmission_power,
                                            },
                                        ),
                                    },
                                },
                            },
                        },
                    },
                },
            },
        }
    }

    /// Encodes the parameters as the module's five-byte parameter block.
    pub fn to_bytes(&self) -> (bytes: [u8; 5])
        ensures
            bytes@ == self.encode(),
            bytes[0] * 256 + bytes[1] == self.address,
            bytes[3] == self.channel,
            bytes[2] / 64 == self.uart_parity.code(),
            (bytes[2] / 8) % 8 == self.uart_rate.code(),
            bytes[2] % 8 == self.air_rate.code(),
            bytes[4] / 128 == self.transmission_mode.code(),
            (bytes[4] / 64) % 2 == self.io_drive_mode.code(),
            (bytes[4] / 8) % 8 == self.wakeup_time.millis() / 250 - 1,
            (bytes[4] / 4) % 2 == self.fec.code(),
            bytes[4] % 4 == (30 - self.transmission_power.dbm()) / 3,
    {
        proof {
            lemma_encode_fields(*self);
        }
        let address = self.address;
        let high = ((0xFF00 & address) >> 8) as u8;
        let low = (0x00FF & address) as u8;
        assert(high == address / 256 && low == address % 256) by (bit_vector)
            requires
                high == ((0xFF00 & address) >> 8) as u8,
                low == (0x00FF & address) as u8,
        ;

        let parity = u8::from(self.uart_parity);
        let uart_rate = u8::from(self.uart_rate);
        let air_rate = u8::from(self.air_rate);
        assert(parity < 4 && uart_rate < 8 && air_rate < 8);
        let speed_byte = (parity << 6) | (uart_rate << 3) | air_rate;
        assert(speed_byte == parity * 64 + uart_rate * 8 + air_rate) by (bit_vector)
            requires
                parity < 4,
                uart_rate < 8,
                air_rate < 8,
                speed_byte == (parity << 6) | (uart_rate << 3) | air_rate,
        ;

        let transmission_mode = u8::from(self.transmission_mode);
        let io_drive_mode = u8::from(self.io_drive_mode);
        let wakeup_time = u8::from(self.wakeup_time);
        let fec = u8::from(self.fec);
        let transmission_power = u8::from(self.transmission_power);
        assert(transmission_mode < 2 && io_drive_mode < 2 && wakeup_time < 8 && fec < 2
            && transmission_power < 4);
        let options = (transmission_mode << 7) | (io_drive_mode << 6) | (wakeup_time << 3) | (fec
            << 2) | transmission_power;
        assert(options == transmission_mode * 128 + io_drive_mode * 64 + wakeup_time * 8 + fec * 4
            + transmission_power) by (bit_vector)
            requires
                transmission_mode < 2,
                io_drive_mode < 2,
                wakeup_time < 8,
                fec < 2,
                transmission_power < 4,
                options == (transmission_mode << 7) | (io_drive_mode << 6) | (wakeup_time << 3)
                    | (fec << 2) | transmission_power,
        ;

        let bytes = [high, low, speed_byte, self.channel, options];
        assert(bytes@ =~= self.encode());
        bytes
    }
    /// Decodes a five-byte parameter block read from the module.
    pub fn from_bytes(bytes: &[u8; 5]) -> (r: Result<Self, Error>)
        ensures
            r is Ok,
            r == Parameters::decode(bytes@),
            r matches Ok(p) && {
                &&& p.address == bytes[0] * 256 + bytes[1]
                &&& p.channel == bytes[3]
                &&& p.uart_parity is Odd <==> bytes[2] / 64 == 1
                &&& p.uart_parity is Even <==> bytes[2] / 64 == 2
                &&& p.uart_rate.code() == (bytes[2] / 8) % 8
                &&& bytes[2] % 8 <= 5 ==> p.air_rate.code() == bytes[2] % 8
                &&& bytes[2] % 8 > 5 ==> p.air_rate.bps() == 19200
                &&& p.transmission_mode.code() == bytes[4] / 128
                &&& p.io_drive_mode.code() == (bytes[4] / 64) % 2
                &&& p.wakeup_time.millis() == ((bytes[4] / 8) % 8 + 1) * 250
                &&& p.fec.code() == (bytes[4] / 4) % 2
                &&& p.transmission_power.dbm() == 30 - 3 * (bytes[4] % 4)
            },
    {
        proof {
            lemma_decode_total(bytes@);
            lemma_decode_fields(bytes@);
        }
        let address_high = bytes[0];
        let address_low = bytes[1];
        let speed = bytes[2];
        let channel = bytes[3];
        let options = bytes[4];
        let address = (address_high as u16) << 8 | address_low as u16;
        assert(address == address_high * 256 + address_low) by (bit_vector)
            requires
                address == (address_high as u16) << 8 | address_low as u16,
        ;

        let parity_code = (speed & 0xC0) >> 6;
        let uart_rate_code = (speed & 0x38) >> 3;
        let air_rate_code = speed & 0x7;
        assert(parity_code == speed / 64 && uart_rate_code == (speed / 8) % 8 && air_rate_code
            == speed % 8) by (bit_vector)
            requires
                parity_code == (speed & 0xC0) >> 6,
                uart_rate_code == (speed & 0x38) >> 3,
                air_rate_code == speed & 0x7,
        ;
        let transmission_mode_code = (options & 0x80) >> 7;
        let io_drive_mode_code = (options & 0x40) >> 6;
        let wakeup_time_code = (options & 0x38) >> 3;
        let fec_code = (options & 0x07) >> 2;
        let transmission_power_code = options & 0x3;
        assert(transmission_mode_code == options / 128 && io_drive_mode_code == (options / 64) % 2
            && wakeup_time_code == (options / 8) % 8 && fec_code == (options / 4) % 2
            && transmission_power_code == options % 4) by (bit_vector)
            requires
                transmission_mode_code == (options & 0x80) >> 7,
                io_drive_mode_code == (options & 0x40) >> 6,
                wakeup_time_code == (options & 0x38) >> 3,
                fec_code == (options & 0x07) >> 2,
                transmission_power_code == options & 0x3,
        ;

        let uart_parity = match Parity::try_from(parity_code) {
            Ok(v) => v,
            Err(e) => return Err(e),
        };
        let uart_rate = match BaudRate::try_from(uart_rate_code) {
            Ok(v) => v,
            Err(e) => return Err(e),
        };
        let air_rate = match AirBaudRate::try_from(air_rate_code) {
            Ok(v) => v,
            Err(e) => return Err(e),
        };
        let transmission_mode = match TransmissionMode::try_from(transmission_mode_code) {
            Ok(v) => v,
            Err(e) => return Err(e),
        };
        let io_drive_mode = match IoDriveMode::try_from(io_drive_mode_code) {
            Ok(v) => v,
            Err(e) => return Err(e),
        };
        let wakeup_time = match WakeupTime::try_from(wakeup_time_code) {
            Ok(v) => v,
            Err(e) => return Err(e),
        };
        let fec = match ForwardErrorCorrectionMode::try_from(fec_code) {
            Ok(v) => v,
            Err(e) => return Err(e),
        };
        let transmission_power = match TransmissionPower::try_from(transmission_power_code) {
            Ok(v) => v,
            Err(e) => return Err(e),
        };

        Ok(Self {
            address,
            channel,
            uart_parity,
            uart_rate,
            air_rate,
            transmission_mode,
            io_drive_mode,
            wakeup_time,
            fec,
            transmission_power,
        })
    }
}

/// Whether a parameter block is the encoding of some parameters: its parity field is not
/// `3` and its air rate field is at most `5` (the module reads those codes as aliases).
pub open spec fn is_canonical(bytes: Seq<u8>) -> bool {
    &&& bytes.len() == 5
    &&& bytes[2] / 64 != 3
    &&& bytes[2] % 8 <= 5
}

/// Every five-byte block decodes: each field's bits hold a code that names a setting.
pub proof fn lemma_decode_total(bytes: Seq<u8>)
    requires
        bytes.len() == 5,
    ensures
        Parameters::decode(bytes) is Ok,
{
    let speed = bytes[2];
    let options = bytes[4];
    assert(speed / 64 < 4 && (speed / 8) % 8 < 8 && speed % 8 < 8) by (bit_vector);
    assert(options / 128 < 2 && (options / 64) % 2 < 2 && (options / 8) % 8 < 8 && (options / 4)
        % 2 < 2 && options % 4 < 4) by (bit_vector);
}

/// Decoding the encoding of any parameters gives them back.
#[verifier::spinoff_prover]
pub proof fn lemma_decode_encode(p: Parameters)
    ensures
        Parameters::decode(p.encode()) == Ok::<Parameters, Error>(p),
{
    let parity = p.uart_parity.code();
    let uart = p.uart_rate.code();
    let air = p.air_rate.code();
    let tm = p.transmission_mode.code();
    let io = p.io_drive_mode.code();
    let wake = p.wakeup_time.code();
    let fec = p.fec.code();
    let power = p.transmission_power.code();
    let speed = p.speed_byte();
    let options = p.option_byte();
    assert(parity < 4 && uart < 8 && air < 8);
    assert(tm < 2 && io < 2 && wake < 8 && fec < 2 && power < 4);
    assert(speed / 64 == parity && (speed / 8) % 8 == uart && speed % 8 == air) by (bit_vector)
        requires
            parity < 4,
            uart < 8,
            air < 8,
            speed == (parity * 64 + uart * 8 + air) as u8,
    ;
    assert(options / 128 == tm && (options / 64) % 2 == io && (options / 8) % 8 == wake && (options
        / 4) % 2 == fec && options % 4 == power) by (bit_vector)
        requires
            tm < 2,
            io < 2,
            wake < 8,
            fec < 2,
            power < 4,
            options == (tm * 128 + io * 64 + wake * 8 + fec * 4 + power) as u8,
    ;
    let address = p.address;
    assert(((address / 256) as u8) * 256 + ((address % 256) as u8) == address) by (bit_vector);
    let bytes = p.encode();
    assert(bytes[2] == speed && bytes[4] == options);
    assert(Parity::decode(speed / 64) == Ok::<Parity, Error>(p.uart_parity));
    assert(BaudRate::decode((speed / 8) % 8) == Ok::<BaudRate, Error>(p.uart_rate));
    assert(AirBaudRate::decode(speed % 8) == Ok::<AirBaudRate, Error>(p.air_rate));
    assert(TransmissionMode::decode(options / 128) == Ok::<TransmissionMode, Error>(
        p.transmission_mode,
    ));
    assert(IoDriveMode::decode((options / 64) % 2) == Ok::<IoDriveMode, Error>(p.io_drive_mode));
    assert(WakeupTime::decode((options / 8) % 8) == Ok::<WakeupTime, Error>(p.wakeup_time));
    assert(ForwardErrorCorrectionMode::decode((options / 4) % 2) == Ok::<
        ForwardErrorCorrectionMode,
        Error,
    >(p.fec));
    assert(TransmissionPower::decode(options % 4) == Ok::<TransmissionPower, Error>(
        p.transmission_power,
    ));
}

/// Encoding what a block decodes to gives the block back exactly when the block is canonical.
pub proof fn lemma_encode_decode(bytes: Seq<u8>)
    requires
        bytes.len() == 5,
    ensures
        Parameters::decode(bytes) matches Ok(p) && (p.encode() == bytes <==> is_canonical(bytes)),
{
    lemma_decode_total(bytes);
    let p = Parameters::decode(bytes).unwrap();
    let speed = bytes[2];
    let options = bytes[4];
    let high = bytes[0];
    let low = bytes[1];
    assert(((high * 256 + low) as u16 / 256) as u8 == high && ((high * 256 + low) as u16 % 256) as u8
        == low) by (bit_vector);
    assert(speed / 64 < 4 && (speed / 8) % 8 < 8 && speed % 8 < 8) by (bit_vector);
    assert(((speed / 64) * 64 + ((speed / 8) % 8) * 8 + speed % 8) as u8 == speed) by (bit_vector);
    assert(((options / 128) * 128 + ((options / 64) % 2) * 64 + ((options / 8) % 8) * 8 + ((options
        / 4) % 2) * 4 + options % 4) as u8 == options) by (bit_vector);
    if is_canonical(bytes) {
        assert(p.encode() =~= bytes);
    } else {
        assert(p.speed_byte() != speed);
    }
}

/// Where each field sits in the encoded block: the address big-endian in bytes 0 and 1, the
/// channel in byte 3, and each setting's code in its bits of the speed and option bytes.
pub proof fn lemma_encode_fields(p: Parameters)
    ensures
        ({
            let e = p.encode();
            &&& e.len() == 5
            &&& e[0] * 256 + e[1] == p.address
            &&& e[3] == p.channel
            &&& e[2] / 64 == p.uart_parity.code()
            &&& (e[2] / 8) % 8 == p.uart_rate.code()
            &&& e[2] % 8 == p.air_rate.code()
            &&& e[4] / 128 == p.transmission_mode.code()
            &&& (e[4] / 64) % 2 == p.io_drive_mode.code()
            &&& (e[4] / 8) % 8 == p.wakeup_time.millis() / 250 - 1
            &&& (e[4] / 4) % 2 == p.fec.code()
            &&& e[4] % 4 == (30 - p.transmission_power.dbm()) / 3
        }),
{
    let parity = p.uart_parity.code();
    let uart = p.uart_rate.code();
    let air = p.air_rate.code();
    let tm = p.transmission_mode.code();
    let io = p.io_drive_mode.code();
    let wake = p.wakeup_time.code();
    let fec = p.fec.code();
    let power = p.transmission_power.code();
    let speed = p.speed_byte();
    let options = p.option_byte();
    p.wakeup_time.lemma_code_is_time();
    p.transmission_power.lemma_code_is_power();
    assert(parity < 4 && uart < 8 && air < 8);
    assert(tm < 2 && io < 2 && wake < 8 && fec < 2 && power < 4);
    assert(speed / 64 == parity && (speed / 8) % 8 == uart && speed % 8 == air) by (bit_vector)
        requires
            parity < 4,
            uart < 8,
            air < 8,
            speed == (parity * 64 + uart * 8 + air) as u8,
    ;
    assert(options / 128 == tm && (options / 64) % 2 == io && (options / 8) % 8 == wake && (options
        / 4) % 2 == fec && options % 4 == power) by (bit_vector)
        requires
            tm < 2,
            io < 2,
            wake < 8,
            fec < 2,
            power < 4,
            options == (tm * 128 + io * 64 + wake * 8 + fec * 4 + power) as u8,
    ;
    let address = p.address;
    assert(((address / 256) as u8) * 256 + ((address % 256) as u8) == address) by (bit_vector);
}

/// What each field of a decoded block is: the address from bytes 0 and 1 big-endian, the
/// channel from byte 3, and each setting from its bits of the speed and option bytes.
pub proof fn lemma_decode_fields(bytes: Seq<u8>)
    requires
        bytes.len() == 5,
    ensures
        Parameters::decode(bytes) matches Ok(p) && {
            &&& p.address == bytes[0] * 256 + bytes[1]
            &&& p.channel == bytes[3]
            &&& p.uart_parity is Odd <==> bytes[2] / 64 == 1
            &&& p.uart_parity is Even <==> bytes[2] / 64 == 2
            &&& p.uart_rate.code() == (bytes[2] / 8) % 8
            &&& bytes[2] % 8 <= 5 ==> p.air_rate.code() == bytes[2] % 8
            &&& bytes[2] % 8 > 5 ==> p.air_rate.bps() == 19200
            &&& p.transmission_mode.code() == bytes[4] / 128
            &&& p.io_drive_mode.code() == (bytes[4] / 64) % 2
            &&& p.wakeup_time.millis() == ((bytes[4] / 8) % 8 + 1) * 250
            &&& p.fec.code() == (bytes[4] / 4) % 2
            &&& p.transmission_power.dbm() == 30 - 3 * (bytes[4] % 4)
        },
{
    lemma_decode_total(bytes);
    let speed = bytes[2];
    let options = bytes[4];
    let high = bytes[0];
    let low = bytes[1];
    assert(high * 256 + low < 0x10000) by (nonlinear_arith)
        requires
            high < 256,
            low < 256,
    ;
    assert(speed / 64 < 4 && (speed / 8) % 8 < 8 && speed % 8 < 8) by (bit_vector);
    assert(options / 128 < 2 && (options / 64) % 2 < 2 && (options / 8) % 8 < 8 && (options / 4)
        % 2 < 2 && options % 4 < 4) by (bit_vector);
    if speed % 8 >= 5 {
        AirBaudRate::lemma_decode_fastest(speed % 8);
    }
    WakeupTime::lemma_decode_is_time((options / 8) % 8);
    TransmissionPower::lemma_decode_is_power(options % 4);
}

} // verus!
