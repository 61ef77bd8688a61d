use vstd::prelude::*;
use vstd::std_specs::convert::{FromSpecImpl, TryFromSpecImpl};
use crate::parameters::error::Error;

verus! {

/// Forward error correction switch, bit 2 of the option byte.
#[derive(Copy, Clone, Debug, PartialEq, Eq, Structural)]
pub enum ForwardErrorCorrectionMode {
    On,
    Off,
}

impl ForwardErrorCorrectionMode {
    /// The code that the module stores for this setting.
    pub open spec fn code(self) -> u8 {
        match self {
            ForwardErrorCorrectionMode::On => 1,
            ForwardErrorCorrectionMode::Off => 0,
        }
    }

    /// What a code read from the module means.
    pub open spec fn decode(value: u8) -> Result<ForwardErrorCorrectionMode, Error> {
        if value == 0 {
            Ok(ForwardErrorCorrectionMode::Off)
        } else if value == 1 {
            Ok(ForwardErrorCorrectionMode::On)
        } else {
            Err(Error::InvalidFecMode { value })
        }
    }
}

impl Default for ForwardErrorCorrectionMode {
    fn default() -> (r: Self)
        ensures
            r == ForwardErrorCorrectionMode::On,
    {
        ForwardErrorCorrectionMode::On
    }
}

impl TryFrom<u8> for ForwardErrorCorrectionMode {
    type Error = Error;

    fn try_from(value: u8) -> (r: Result<Self, Self::Error>)
        ensures
            r == Ok::<ForwardErrorCorrectionMode, Error>(ForwardErrorCorrectionMode::Off) <==> value == 0,
            r == Ok::<ForwardErrorCorrectionMode, Error>(ForwardErrorCorrectionMode::On) <==> value == 1,
            r is Err ==> r == Err::<ForwardErrorCorrectionMode, Error>(Error::InvalidFecMode { value }),
    {
        match value {
            0 => Ok(Self::Off),
            1 => Ok(Self::On),
            _ => Err(Error::InvalidFecMode { value }),
        }
    }
}

impl TryFromSpecImpl<u8> for ForwardErrorCorrectionMode {
    open spec fn obeys_try_from_spec() -> bool {
        true
    }

    open spec fn try_from_spec(v: u8) -> Result<Self, Self::Error> {
        ForwardErrorCorrectionMode::decode(v)
    }
}

impl From<ForwardErrorCorrectionMode> for u8 {
    fn from(setting: ForwardErrorCorrectionMode) -> (r: u8)
        ensures
            r == 0 <==> setting is Off,
            r == 1 <==> setting is On,
    {
        match setting {
            ForwardErrorCorrectionMode::On => 1,
            ForwardErrorCorrectionMode::Off => 0,
        }
    }
}

impl FromSpecImpl<ForwardErrorCorrectionMode> for u8 {
    open spec fn obeys_from_spec() -> bool {
        true
    }

    open spec fn from_spec(v: ForwardErrorCorrectionMode) -> u8 {
        v.code()
    }
}

impl ForwardErrorCorrectionMode {
    /// Reading back the code of a setting gives the setting.
    pub proof fn lemma_decode_code(self)
        ensures
            ForwardErrorCorrectionMode::decode(self.code()) == Ok::<ForwardErrorCorrectionMode, Error>(self),
    {
    }

    /// A code names a setting exactly when it fits in the field's bits.
    pub proof fn lemma_decode_ok(value: u8)
        ensures
            ForwardErrorCorrectionMode::decode(value) is Ok <==> value < 2,
    {
    }

    /// Which code names which setting.
    pub proof fn lemma_code_names_setting(self)
        ensures
            self.code() == 0 <==> self is Off,
            self.code() == 1 <==> self is On,
    {
    }

    /// Which codes read from the module name which setting.
    pub proof fn lemma_decode_names_setting(value: u8)
        ensures
            ForwardErrorCorrectionMode::decode(value) == Ok::<ForwardErrorCorrectionMode, Error>(ForwardErrorCorrectionMode::Off) <==> value == 0,
            ForwardErrorCorrectionMode::decode(value) == Ok::<ForwardErrorCorrectionMode, Error>(ForwardErrorCorrectionMode::On) <==> value == 1,
    {
    }
}

} // verus!
