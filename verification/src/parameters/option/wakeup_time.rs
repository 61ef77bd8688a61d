use vstd::prelude::*;
use vstd::std_specs::convert::{FromSpecImpl, TryFromSpecImpl};
use crate::parameters::error::Error;

verus! {

/// Wireless wakeup time, bits 5 to 3 of the option byte.
#[derive(Copy, Clone, Debug, PartialEq, Eq, Structural)]
pub enum WakeupTime {
    Ms250,
    Ms500,
    Ms750,
    Ms1000,
    Ms1250,
    Ms1500,
    Ms1750,
    Ms2000,
}

impl WakeupTime {
    /// The code that the module stores for this setting.
    pub open spec fn code(self) -> u8 {
        match self {
            WakeupTime::Ms250 => 0,
            WakeupTime::Ms500 => 1,
            WakeupTime::Ms750 => 2,
            WakeupTime::Ms1000 => 3,
            WakeupTime::Ms1250 => 4,
            WakeupTime::Ms1500 => 5,
            WakeupTime::Ms1750 => 6,
            WakeupTime::Ms2000 => 7,
        }
    }

    /// What a code read from the module means.
    pub open spec fn decode(value: u8) -> Result<WakeupTime, Error> {
        if value == 0 {
            Ok(WakeupTime::Ms250)
        } else if value == 1 {
            Ok(WakeupTime::Ms500)
        } else if value == 2 {
            Ok(WakeupTime::Ms750)
        } else if value == 3 {
            Ok(WakeupTime::Ms1000)
        } else if value == 4 {
            Ok(WakeupTime::Ms1250)
        } else if value == 5 {
            Ok(WakeupTime::Ms1500)
        } else if value == 6 {
            Ok(WakeupTime::Ms1750)
        } else if value == 7 {
            Ok(WakeupTime::Ms2000)
        } else {
            Err(Error::InvalidWakeupTime { value })
        }
    }
}

impl Default for WakeupTime {
    fn default() -> (r: Self)
        ensures
            r == WakeupTime::Ms250,
    {
        WakeupTime::Ms250
    }
}

impl TryFrom<u8> for WakeupTime {
    type Error = Error;

    fn try_from(value: u8) -> (r: Result<Self, Self::Error>)
        ensures
            value < 8 ==> (r matches Ok(t) && t.millis() == (value + 1) * 250),
            r is Err ==> r == Err::<WakeupTime, Error>(Error::InvalidWakeupTime { value }),
    {
        match value {
            0 => Ok(Self::Ms250),
            1 => Ok(Self::Ms500),
            2 => Ok(Self::Ms750),
            3 => Ok(Self::Ms1000),
            4 => Ok(Self::Ms1250),
            5 => Ok(Self::Ms1500),
            6 => Ok(Self::Ms1750),
            7 => Ok(Self::Ms2000),
            _ => Err(Error::InvalidWakeupTime { value }),
        }
    }
}

impl TryFromSpecImpl<u8> for WakeupTime {
    open spec fn obeys_try_from_spec() -> bool {
        true
    }

    open spec fn try_from_spec(v: u8) -> Result<Self, Self::Error> {
        WakeupTime::decode(v)
    }
}

impl From<WakeupTime> for u8 {
    fn from(setting: WakeupTime) -> (r: u8)
        ensures
            r as int == setting.millis() / 250 - 1,
    {
        match setting {
            WakeupTime::Ms250 => 0,
            WakeupTime::Ms500 => 1,
            WakeupTime::Ms750 => 2,
            WakeupTime::Ms1000 => 3,
            WakeupTime::Ms1250 => 4,
            WakeupTime::Ms1500 => 5,
            WakeupTime::Ms1750 => 6,
            WakeupTime::Ms2000 => 7,
        }
    }
}

impl FromSpecImpl<WakeupTime> for u8 {
    open spec fn obeys_from_spec() -> bool {
        true
    }

    open spec fn from_spec(v: WakeupTime) -> u8 {
        v.code()
    }
}

impl WakeupTime {
    /// Reading back the code of a setting gives the setting.
    pub proof fn lemma_decode_code(self)
        ensures
            WakeupTime::decode(self.code()) == Ok::<WakeupTime, Error>(self),
    {
    }

    /// A code names a setting exactly when it fits in the field's bits.
    pub proof fn lemma_decode_ok(value: u8)
        ensures
            WakeupTime::decode(value) is Ok <==> value < 8,
    {
    }

    /// The wakeup time, in milliseconds, that the setting names.
    pub open spec fn millis(self) -> int {
        match self {
            WakeupTime::Ms250 => 250,
            WakeupTime::Ms500 => 500,
            WakeupTime::Ms750 => 750,
            WakeupTime::Ms1000 => 1000,
            WakeupTime::Ms1250 => 1250,
            WakeupTime::Ms1500 => 1500,
            WakeupTime::Ms1750 => 1750,
            WakeupTime::Ms2000 => 2000,
        }
    }

    /// The stored code counts the wakeup time in steps of 250 ms, starting from 0 at 250 ms.
    pub proof fn lemma_code_is_time(self)
        ensures
            self.code() as int == self.millis() / 250 - 1,
    {
    }

    /// A code read from the module names a wakeup time of (code + 1) * 250 ms.
    pub proof fn lemma_decode_is_time(value: u8)
        requires
            value < 8,
        ensures
            WakeupTime::decode(value) matches Ok(t) && t.millis() == (value + 1) * 250,
    {
    }
}

} // verus!
