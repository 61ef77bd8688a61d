use vstd::prelude::*;
use vstd::std_specs::convert::{FromSpecImpl, TryFromSpecImpl};
use crate::parameters::error::Error;

verus! {

/// Transmission power, bits 1 and 0 of the option byte.
#[derive(Copy, Clone, Debug, PartialEq, Eq, Structural)]
pub enum TransmissionPower {
    Dbm30,
    Dbm27,
    Dbm24,
    Dbm21,
}

impl TransmissionPower {
    /// The code that the module stores for this setting.
    pub open spec fn code(self) -> u8 {
        match self {
            TransmissionPower::Dbm30 => 0,
            TransmissionPower::Dbm27 => 1,
            TransmissionPower::Dbm24 => 2,
            TransmissionPower::Dbm21 => 3,
        }
    }

    /// What a code read from the module means.
    pub open spec fn decode(value: u8) -> Result<TransmissionPower, Error> {
        if value == 0 {
            Ok(TransmissionPower::Dbm30)
        } else if value == 1 {
            Ok(TransmissionPower::Dbm27)
        } else if value == 2 {
            Ok(TransmissionPower::Dbm24)
        } else if value == 3 {
            Ok(TransmissionPower::Dbm21)
        } else {
            Err(Error::InvalidTransmissionPower { value })
        }
    }
}

impl Default for TransmissionPower {
    fn default() -> (r: Self)
        ensures
            r == TransmissionPower::Dbm30,
    {
        TransmissionPower::Dbm30
    }
}

impl TryFrom<u8> for TransmissionPower {
    type Error = Error;

    fn try_from(value: u8) -> (r: Result<Self, Self::Error>)
        ensures
            value < 4 ==> (r matches Ok(p) && p.dbm() == 30 - 3 * value),
            r is Err ==> r == Err::<TransmissionPower, Error>(Error::InvalidTransmissionPower { value }),
    {
        match value {
            0 => Ok(Self::Dbm30),
            1 => Ok(Self::Dbm27),
            2 => Ok(Self::Dbm24),
            3 => Ok(Self::Dbm21),
            _ => Err(Error::InvalidTransmissionPower { value }),
        }
    }
}

impl TryFromSpecImpl<u8> for TransmissionPower {
    open spec fn obeys_try_from_spec() -> bool {
        true
    }

    open spec fn try_from_spec(v: u8) -> Result<Self, Self::Error> {
        TransmissionPower::decode(v)
    }
}

impl From<TransmissionPower> for u8 {
    fn from(setting: TransmissionPower) -> (r: u8)
        ensures
            r as int == (30 - setting.dbm()) / 3,
    {
        match setting {
            TransmissionPower::Dbm30 => 0,
            TransmissionPower::Dbm27 => 1,
            TransmissionPower::Dbm24 => 2,
            TransmissionPower::Dbm21 => 3,
        }
    }
}

impl FromSpecImpl<TransmissionPower> for u8 {
    open spec fn obeys_from_spec() -> bool {
        true
    }

    open spec fn from_spec(v: TransmissionPower) -> u8 {
        v.code()
    }
}

impl TransmissionPower {
    /// Reading back the code of a setting gives the setting.
    pub proof fn lemma_decode_code(self)
        ensures
            TransmissionPower::decode(self.code()) == Ok::<TransmissionPower, Error>(self),
    {
    }

    /// A code names a setting exactly when it fits in the field's bits.
    pub proof fn lemma_decode_ok(value: u8)
        ensures
            TransmissionPower::decode(value) is Ok <==> value < 4,
    {
    }

    /// The transmission power, in dBm, that the setting names.
    pub open spec fn dbm(self) -> int {
        match self {
            TransmissionPower::Dbm30 => 30,
            TransmissionPower::Dbm27 => 27,
            TransmissionPower::Dbm24 => 24,
            TransmissionPower::Dbm21 => 21,
        }
    }

    /// The stored code counts 3 dB steps down from 30 dBm.
    pub proof fn lemma_code_is_power(self)
        ensures
            self.code() as int == (30 - self.dbm()) / 3,
    {
    }

    /// A code read from the module names a power of 30 - 3 * code dBm.
    pub proof fn lemma_decode_is_power(value: u8)
        requires
            value < 4,
        ensures
            TransmissionPower::decode(value) matches Ok(p) && p.dbm() == 30 - 3 * value,
    {
    }
}

} // verus!
