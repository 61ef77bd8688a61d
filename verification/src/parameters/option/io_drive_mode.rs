use vstd::prelude::*;
use vstd::std_specs::convert::{FromSpecImpl, TryFromSpecImpl};
use crate::parameters::error::Error;

verus! {

/// How the module drives its IO pins, bit 6 of the option byte.
#[derive(Copy, Clone, Debug, PartialEq, Eq, Structural)]
pub enum IoDriveMode {
    PushPull,
    OpenCollector,
}

impl IoDriveMode {
    /// The code that the module stores for this setting.
    pub open spec fn code(self) -> u8 {
        match self {
            IoDriveMode::PushPull => 1,
            IoDriveMode::OpenCollector => 0,
        }
    }

    /// What a code read from the module means.
    pub open spec fn decode(value: u8) -> Result<IoDriveMode, Error> {
        if value == 0 {
            Ok(IoDriveMode::OpenCollector)
        } else if value == 1 {
            Ok(IoDriveMode::PushPull)
        } else {
            Err(Error::InvalidIoDriveMode { value })
        }
    }
}

impl Default for IoDriveMode {
    fn default() -> (r: Self)
        ensures
            r == IoDriveMode::PushPull,
    {
        IoDriveMode::PushPull
    }
}

impl TryFrom<u8> for IoDriveMode {
    type Error = Error;

    fn try_from(value: u8) -> (r: Result<Self, Self::Error>)
        ensures
            r == Ok::<IoDriveMode, Error>(IoDriveMode::OpenCollector) <==> value == 0,
            r == Ok::<IoDriveMode, Error>(IoDriveMode::PushPull) <==> value == 1,
            r is Err ==> r == Err::<IoDriveMode, Error>(Error::InvalidIoDriveMode { value }),
    {
        match value {
            0 => Ok(Self::OpenCollector),
            1 => Ok(Self::PushPull),
            _ => Err(Error::InvalidIoDriveMode { value }),
        }
    }
}

impl TryFromSpecImpl<u8> for IoDriveMode {
    open spec fn obeys_try_from_spec() -> bool {
        true
    }

    open spec fn try_from_spec(v: u8) -> Result<Self, Self::Error> {
        IoDriveMode::decode(v)
    }
}

impl From<IoDriveMode> for u8 {
    fn from(setting: IoDriveMode) -> (r: u8)
        ensures
            r == 0 <==> setting is OpenCollector,
            r == 1 <==> setting is PushPull,
    {
        match setting {
            IoDriveMode::PushPull => 1,
            IoDriveMode::OpenCollector => 0,
        }
    }
}

impl FromSpecImpl<IoDriveMode> for u8 {
    open spec fn obeys_from_spec() -> bool {
        true
    }

    open spec fn from_spec(v: IoDriveMode) -> u8 {
        v.code()
    }
}

impl IoDriveMode {
    /// Reading back the code of a setting gives the setting.
    pub proof fn lemma_decode_code(self)
        ensures
            IoDriveMode::decode(self.code()) == Ok::<IoDriveMode, Error>(self),
    {
    }

    /// A code names a setting exactly when it fits in the field's bits.
    pub proof fn lemma_decode_ok(value: u8)
        ensures
            IoDriveMode::decode(value) is Ok <==> value < 2,
    {
    }

    /// Which code names which setting.
    pub proof fn lemma_code_names_setting(self)
        ensures
            self.code() == 0 <==> self is OpenCollector,
            self.code() == 1 <==> self is PushPull,
    {
    }

    /// Which codes read from the module name which setting.
    pub proof fn lemma_decode_names_setting(value: u8)
        ensures
            IoDriveMode::decode(value) == Ok::<IoDriveMode, Error>(IoDriveMode::OpenCollector) <==> value == 0,
            IoDriveMode::decode(value) == Ok::<IoDriveMode, Error>(IoDriveMode::PushPull) <==> value == 1,
    {
    }
}

} // verus!
