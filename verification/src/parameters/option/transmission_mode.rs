use vstd::prelude::*;
use vstd::std_specs::convert::{FromSpecImpl, TryFromSpecImpl};
use crate::parameters::error::Error;

verus! {

/// Transparent or fixed transmission, bit 7 of the option byte.
#[derive(Copy, Clone, Debug, PartialEq, Eq, Structural)]
pub enum TransmissionMode {
    Transparent,
    Fixed,
}

impl TransmissionMode {
    /// The code that the module stores for this setting.
    pub open spec fn code(self) -> u8 {
        match self {
            TransmissionMode::Transparent => 0,
            TransmissionMode::Fixed => 1,
        }
    }

    /// What a code read from the module means.
    pub open spec fn decode(value: u8) -> Result<TransmissionMode, Error> {
        if value == 0 {
            Ok(TransmissionMode::Transparent)
        } else if value == 1 {
            Ok(TransmissionMode::Fixed)
        } else {
            Err(Error::InvalidTransmissionMode { value })
        }
    }
}

impl Default for TransmissionMode {
    fn default() -> (r: Self)
        ensures
            r == TransmissionMode::Transparent,
    {
        TransmissionMode::Transparent
    }
}

impl TryFrom<u8> for TransmissionMode {
    type Error = Error;

    fn try_from(value: u8) -> (r: Result<Self, Self::Error>)
        ensures
            r == Ok::<TransmissionMode, Error>(TransmissionMode::Transparent) <==> value == 0,
            r == Ok::<TransmissionMode, Error>(TransmissionMode::Fixed) <==> value == 1,
            r is Err ==> r == Err::<TransmissionMode, Error>(Error::InvalidTransmissionMode { value }),
    {
        match value {
            0 => Ok(Self::Transparent),
            1 => Ok(Self::Fixed),
            _ => Err(Error::InvalidTransmissionMode { value }),
        }
    }
}

impl TryFromSpecImpl<u8> for TransmissionMode {
    open spec fn obeys_try_from_spec() -> bool {
        true
    }

    open spec fn try_from_spec(v: u8) -> Result<Self, Self::Error> {
        TransmissionMode::decode(v)
    }
}

impl From<TransmissionMode> for u8 {
    fn from(setting: TransmissionMode) -> (r: u8)
        ensures
            r == 0 <==> setting is Transparent,
            r == 1 <==> setting is Fixed,
    {
        match setting {
            TransmissionMode::Transparent => 0,
            TransmissionMode::Fixed => 1,
        }
    }
}

impl FromSpecImpl<TransmissionMode> for u8 {
    open spec fn obeys_from_spec() -> bool {
        true
    }

    open spec fn from_spec(v: TransmissionMode) -> u8 {
        v.code()
    }
}

impl TransmissionMode {
    /// Reading back the code of a setting gives the setting.
    pub proof fn lemma_decode_code(self)
        ensures
            TransmissionMode::decode(self.code()) == Ok::<TransmissionMode, Error>(self),
    {
    }

    /// A code names a setting exactly when it fits in the field's bits.
    pub proof fn lemma_decode_ok(value: u8)
        ensures
            TransmissionMode::decode(value) is Ok <==> value < 2,
    {
    }

    /// Which code names which setting.
    pub proof fn lemma_code_names_setting(self)
        ensures
            self.code() == 0 <==> self is Transparent,
            self.code() == 1 <==> self is Fixed,
    {
    }

    /// Which codes read from the module name which setting.
    pub proof fn lemma_decode_names_setting(value: u8)
        ensures
            TransmissionMode::decode(value) == Ok::<TransmissionMode, Error>(TransmissionMode::Transparent) <==> value == 0,
            TransmissionMode::decode(value) == Ok::<TransmissionMode, Error>(TransmissionMode::Fixed) <==> value == 1,
    {
    }
}

} // verus!
