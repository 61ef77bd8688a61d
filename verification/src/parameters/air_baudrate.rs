use vstd::prelude::*;
use vstd::std_specs::convert::{FromSpecImpl, TryFromSpecImpl};
use crate::parameters::error::Error;

verus! {

/// Data rate on air, bits 2 to 0 of the speed byte.
#[derive(Copy, Clone, Debug, PartialEq, Eq, Structural)]
pub enum AirBaudRate {
    Bps300,
    Bps1200,
    Bps2400,
    Bps4800,
    Bps9600,
    Bps19200,
}

impl AirBaudRate {
    /// The code that the module stores for this setting.
    pub open spec fn code(self) -> u8 {
        match self {
            AirBaudRate::Bps300 => 0,
            AirBaudRate::Bps1200 => 1,
            AirBaudRate::Bps2400 => 2,
            AirBaudRate::Bps4800 => 3,
            AirBaudRate::Bps9600 => 4,
            AirBaudRate::Bps19200 => 5,
        }
    }

    /// What a code read from the module means; 6 and 7 are read as `Bps19200` too.
    pub open spec fn decode(rate: u8) -> Result<AirBaudRate, Error> {
        if rate == 0 {
            Ok(AirBaudRate::Bps300)
        } else if rate == 1 {
            Ok(AirBaudRate::Bps1200)
        } else if rate == 2 {
            Ok(AirBaudRate::Bps2400)
        } else if rate == 3 {
            Ok(AirBaudRate::Bps4800)
        } else if rate == 4 {
            Ok(AirBaudRate::Bps9600)
        } else if rate == 5 || rate == 6 || rate == 7 {
            Ok(AirBaudRate::Bps19200)
        } else {
            Err(Error::InvalidBaudrate { rate })
        }
    }
}

impl Default for AirBaudRate {
    fn default() -> (r: Self)
        ensures
            r == AirBaudRate::Bps2400,
    {
        AirBaudRate::Bps2400
    }
}

impl TryFrom<u8> for AirBaudRate {
    type Error = Error;

    fn try_from(rate: u8) -> (r: Result<Self, Self::Error>)
        ensures
            5 <= rate < 8 ==> r == Ok::<AirBaudRate, Error>(AirBaudRate::Bps19200),
            r is Err ==> r == Err::<AirBaudRate, Error>(Error::InvalidBaudrate { rate }),
    {
        match rate {
            0 => Ok(Self::Bps300),
            1 => Ok(Self::Bps1200),
            2 => Ok(Self::Bps2400),
            3 => Ok(Self::Bps4800),
            4 => Ok(Self::Bps9600),
            5 | 6 | 7 => Ok(Self::Bps19200),
            _ => Err(Error::InvalidBaudrate { rate }),
        }
    }
}

impl TryFromSpecImpl<u8> for AirBaudRate {
    open spec fn obeys_try_from_spec() -> bool {
        true
    }

    open spec fn try_from_spec(v: u8) -> Result<Self, Self::Error> {
        AirBaudRate::decode(v)
    }
}

impl From<AirBaudRate> for u8 {
    fn from(setting: AirBaudRate) -> (r: u8)
        ensures
            r <= 5,
    {
        match setting {
            AirBaudRate::Bps300 => 0,
            AirBaudRate::Bps1200 => 1,
            AirBaudRate::Bps2400 => 2,
            AirBaudRate::Bps4800 => 3,
            AirBaudRate::Bps9600 => 4,
            AirBaudRate::Bps19200 => 5,
        }
    }
}

impl FromSpecImpl<AirBaudRate> for u8 {
    open spec fn obeys_from_spec() -> bool {
        true
    }

    open spec fn from_spec(v: AirBaudRate) -> u8 {
        v.code()
    }
}

impl AirBaudRate {
    /// Reading back the code of a setting gives the setting.
    pub proof fn lemma_decode_code(self)
        ensures
            AirBaudRate::decode(self.code()) == Ok::<AirBaudRate, Error>(self),
    {
    }

    /// A code names a setting exactly when it fits in the field's bits.
    pub proof fn lemma_decode_ok(value: u8)
        ensures
            AirBaudRate::decode(value) is Ok <==> value < 8,
    {
    }

    /// The air data rate, in bits per second, that the setting names.
    pub open spec fn bps(self) -> int {
        match self {
            AirBaudRate::Bps300 => 300,
            AirBaudRate::Bps1200 => 1200,
            AirBaudRate::Bps2400 => 2400,
            AirBaudRate::Bps4800 => 4800,
            AirBaudRate::Bps9600 => 9600,
            AirBaudRate::Bps19200 => 19200,
        }
    }

    /// Codes follow the speed: a faster rate has a larger code, and no code exceeds 5,
    /// which leaves one code per rate in order of speed.
    pub proof fn lemma_code_increasing(a: AirBaudRate, b: AirBaudRate)
        ensures
            a.bps() < b.bps() ==> a.code() < b.code(),
            a.code() <= 5,
    {
    }

    /// Up to 5, a larger code read from the module names a faster rate.
    pub proof fn lemma_decode_increasing(v: u8, w: u8)
        requires
            v < w <= 5,
        ensures
            AirBaudRate::decode(v) matches Ok(a) && AirBaudRate::decode(w) matches Ok(b)
                && a.bps() < b.bps(),
    {
    }

    /// Codes 5, 6 and 7 all name the fastest rate, 19200 bps.
    pub proof fn lemma_decode_fastest(v: u8)
        requires
            5 <= v < 8,
        ensures
            AirBaudRate::decode(v) matches Ok(a) && a.bps() == 19200,
    {
    }
}

} // verus!
