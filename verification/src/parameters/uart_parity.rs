use vstd::prelude::*;
use vstd::std_specs::convert::{FromSpecImpl, TryFromSpecImpl};
use crate::parameters::error::Error;

verus! {

/// Parity of the module's UART, bits 7 and 6 of the speed byte.
#[derive(Copy, Clone, Debug, PartialEq, Eq, Structural)]
pub enum Parity {
    NoParity,
    Odd,
    Even,
}

impl Parity {
    /// The two-bit code that the module stores for this parity.
    pub open spec fn code(self) -> u8 {
        match self {
            Parity::NoParity => 0,
            Parity::Odd => 1,
            Parity::Even => 2,
        }
    }

    /// What a two-bit code read from the module means: `3` is read as no parity too.
    pub open spec fn decode(value: u8) -> Result<Parity, Error> {
        if value == 0 || value == 3 {
            Ok(Parity::NoParity)
        } else if value == 1 {
            Ok(Parity::Odd)
        } else if value == 2 {
            Ok(Parity::Even)
        } else {
            Err(Error::InvalidUartParity { value })
        }
    }
}

impl Default for Parity {
    fn default() -> (r: Self)
        ensures
            r == Parity::NoParity,
    {
        Parity::NoParity
    }
}

impl TryFrom<u8> for Parity {
    type Error = Error;

    fn try_from(value: u8) -> (r: Result<Self, Self::Error>)
        ensures
            r == Ok::<Parity, Error>(Parity::NoParity) <==> value == 0 || value == 3,
            r == Ok::<Parity, Error>(Parity::Odd) <==> value == 1,
            r == Ok::<Parity, Error>(Parity::Even) <==> value == 2,
            r is Err ==> r == Err::<Parity, Error>(Error::InvalidUartParity { value }),
    {
        match value {
            0 | 3 => Ok(Self::NoParity),
            1 => Ok(Self::Odd),
            2 => Ok(Self::Even),
            _ => Err(Error::InvalidUartParity { value }),
        }
    }
}

impl TryFromSpecImpl<u8> for Parity {
    open spec fn obeys_try_from_spec() -> bool {
        true
    }

    open spec fn try_from_spec(v: u8) -> Result<Self, Self::Error> {
        Parity::decode(v)
    }
}

impl From<Parity> for u8 {
    fn from(parity: Parity) -> (r: u8)
        ensures
            r == 0 <==> parity is NoParity,
            r == 1 <==> parity is Odd,
            r == 2 <==> parity is Even,
    {
        match parity {
            Parity::NoParity => 0,
            Parity::Odd => 1,
            Parity::Even => 2,
        }
    }
}

impl FromSpecImpl<Parity> for u8 {
    open spec fn obeys_from_spec() -> bool {
        true
    }

    open spec fn from_spec(v: Parity) -> u8 {
        v.code()
    }
}

impl Parity {
    /// Reading back the code of a setting gives the setting.
    pub proof fn lemma_decode_code(self)
        ensures
            Parity::decode(self.code()) == Ok::<Parity, Error>(self),
    {
    }

    /// A code names a setting exactly when it fits in the field's bits.
    pub proof fn lemma_decode_ok(value: u8)
        ensures
            Parity::decode(value) is Ok <==> value < 4,
    {
    }

    /// Which code names which setting.
    pub proof fn lemma_code_names_setting(self)
        ensures
            self.code() == 0 <==> self is NoParity,
            self.code() == 1 <==> self is Odd,
            self.code() == 2 <==> self is Even,
    {
    }

    /// Which codes read from the module name which setting.
    pub proof fn lemma_decode_names_setting(value: u8)
        ensures
            Parity::decode(value) == Ok::<Parity, Error>(Parity::NoParity) <==> value == 0 || value == 3,
            Parity::decode(value) == Ok::<Parity, Error>(Parity::Odd) <==> value == 1,
            Parity::decode(value) == Ok::<Parity, Error>(Parity::Even) <==> value == 2,
    {
    }
}

} // verus!
