use vstd::prelude::*;
use vstd::std_specs::convert::{FromSpecImpl, TryFromSpecImpl};
use crate::parameters::error::Error;

verus! {

/// Baud rate of the module's UART, bits 5 to 3 of the speed byte.
#[derive(Copy, Clone, Debug, PartialEq, Eq, Structural)]
pub enum BaudRate {
    Bps1200,
    Bps2400,
    Bps4800,
    Bps9600,
    Bps19200,
    Bps38400,
    Bps57600,
    Bps115200,
}

impl BaudRate {
    /// The code that the module stores for this setting.
    pub open spec fn code(self) -> u8 {
        match self {
            BaudRate::Bps1200 => 0,
            BaudRate::Bps2400 => 1,
            BaudRate::Bps4800 => 2,
            BaudRate::Bps9600 => 3,
            BaudRate::Bps19200 => 4,
            BaudRate::Bps38400 => 5,
            BaudRate::Bps57600 => 6,
            BaudRate::Bps115200 => 7,
        }
    }

    /// What a code read from the module means.
    pub open spec fn decode(rate: u8) -> Result<BaudRate, Error> {
        if rate == 0 {
            Ok(BaudRate::Bps1200)
        } else if rate == 1 {
            Ok(BaudRate::Bps2400)
        } else if rate == 2 {
            Ok(BaudRate::Bps4800)
        } else if rate == 3 {
            Ok(BaudRate::Bps9600)
        } else if rate == 4 {
            Ok(BaudRate::Bps19200)
        } else if rate == 5 {
            Ok(BaudRate::Bps38400)
        } else if rate == 6 {
            Ok(BaudRate::Bps57600)
        } else if rate == 7 {
            Ok(BaudRate::Bps115200)
        } else {
            Err(Error::InvalidBaudrate { rate })
        }
    }
}

impl Default for BaudRate {
    fn default() -> (r: Self)
        ensures
            r == BaudRate::Bps9600,
    {
        BaudRate::Bps9600
    }
}

impl TryFrom<u8> for BaudRate {
    type Error = Error;

    fn try_from(rate: u8) -> (r: Result<Self, Self::Error>)
        ensures
            r is Err ==> r == Err::<BaudRate, Error>(Error::InvalidBaudrate { rate }),
    {
        match rate {
            0 => Ok(Self::Bps1200),
            1 => Ok(Self::Bps2400),
            2 => Ok(Self::Bps4800),
            3 => Ok(Self::Bps9600),
            4 => Ok(Self::Bps19200),
            5 => Ok(Self::Bps38400),
            6 => Ok(Self::Bps57600),
            7 => Ok(Self::Bps115200),
            _ => Err(Error::InvalidBaudrate { rate }),
        }
    }
}

impl TryFromSpecImpl<u8> for BaudRate {
    open spec fn obeys_try_from_spec() -> bool {
        true
    }

    open spec fn try_from_spec(v: u8) -> Result<Self, Self::Error> {
        BaudRate::decode(v)
    }
}

impl From<BaudRate> for u8 {
    fn from(setting: BaudRate) -> (r: u8)
        ensures
            r < 8,
    {
        match setting {
            BaudRate::Bps1200 => 0,
            BaudRate::Bps2400 => 1,
            BaudRate::Bps4800 => 2,
            BaudRate::Bps9600 => 3,
            BaudRate::Bps19200 => 4,
            BaudRate::Bps38400 => 5,
            BaudRate::Bps57600 => 6,
            BaudRate::Bps115200 => 7,
        }
    }
}

impl FromSpecImpl<BaudRate> for u8 {
    open spec fn obeys_from_spec() -> bool {
        true
    }

    open spec fn from_spec(v: BaudRate) -> u8 {
        v.code()
    }
}

impl BaudRate {
    /// Reading back the code of a setting gives the setting.
    pub proof fn lemma_decode_code(self)
        ensures
            BaudRate::decode(self.code()) == Ok::<BaudRate, Error>(self),
    {
    }

    /// A code names a setting exactly when it fits in the field's bits.
    pub proof fn lemma_decode_ok(value: u8)
        ensures
            BaudRate::decode(value) is Ok <==> value < 8,
    {
    }

    /// The UART speed, in bits per second, that the setting names.
    pub open spec fn bps(self) -> int {
        match self {
            BaudRate::Bps1200 => 1200,
            BaudRate::Bps2400 => 2400,
            BaudRate::Bps4800 => 4800,
            BaudRate::Bps9600 => 9600,
            BaudRate::Bps19200 => 19200,
            BaudRate::Bps38400 => 38400,
            BaudRate::Bps57600 => 57600,
            BaudRate::Bps115200 => 115200,
        }
    }

    /// Codes follow the speed: a faster rate has a larger code, and every code fits in
    /// three bits, which leaves one code per rate in order of speed.
    pub proof fn lemma_code_increasing(a: BaudRate, b: BaudRate)
        ensures
            a.bps() < b.bps() ==> a.code() < b.code(),
            a.code() < 8,
    {
    }

    /// A larger code read from the module names a faster rate.
    pub proof fn lemma_decode_increasing(v: u8, w: u8)
        requires
            v < w < 8,
        ensures
            BaudRate::decode(v) matches Ok(a) && BaudRate::decode(w) matches Ok(b) && a.bps()
                < b.bps(),
    {
    }
}

} // verus!
