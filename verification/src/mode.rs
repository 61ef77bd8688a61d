use vstd::prelude::*;

verus! {

/// Send and receive.
#[derive(Copy, Clone, Debug, Default, PartialEq, Eq, Structural)]
pub struct Normal;

/// Send preamble to wake receiver.
#[derive(Copy, Clone, Debug, Default, PartialEq, Eq, Structural)]
pub struct Wakeup;

/// Powerdown.
#[derive(Copy, Clone, Debug, Default, PartialEq, Eq, Structural)]
pub struct Monitor;

/// Programming.
#[derive(Copy, Clone, Debug, Default, PartialEq, Eq, Structural)]
pub struct Program;

/// Level of an output pin.
#[derive(Copy, Clone, Debug, PartialEq, Eq, Structural)]
pub enum Level {
    Low,
    High,
}

/// Levels of the two mode pins.
#[derive(Copy, Clone, Debug, PartialEq, Eq, Structural)]
pub struct PinLevels {
    pub m0: Level,
    pub m1: Level,
}

/// Milliseconds to wait before and after the mode pins change.
pub const MODE_SWITCH_DELAY_MS: u32 = 40;

/// The pin levels that select the mode whose number is `id`: M0 carries bit 0 of the
/// number, M1 carries bit 1.
pub open spec fn levels_of(id: u8) -> PinLevels {
    PinLevels {
        m0: if id % 2 == 1 { Level::High } else { Level::Low },
        m1: if id / 2 % 2 == 1 { Level::High } else { Level::Low },
    }
}

/// An operating mode of the module, selected by the levels of the M0 and M1 pins.
pub trait Mode {
    /// The mode's number.
    spec fn number(&self) -> u8;

    /// The mode's number.
    fn id(&self) -> (r: u8)
        ensures
            r == self.number(),
            r < 4,
    ;

    /// The levels that M0 and M1 take in this mode.
    fn pin_levels(&self) -> (r: PinLevels)
        ensures
            r == levels_of(self.number()),
    ;
}

impl Mode for Normal {
    open spec fn number(&self) -> u8 {
        0
    }

    fn id(&self) -> (r: u8) {
        0
    }

    fn pin_levels(&self) -> (r: PinLevels) {
        PinLevels { m0: Level::Low, m1: Level::Low }
    }
}

impl Mode for Wakeup {
    open spec fn number(&self) -> u8 {
        1
    }

    fn id(&self) -> (r: u8) {
        1
    }

    fn pin_levels(&self) -> (r: PinLevels) {
        PinLevels { m0: Level::High, m1: Level::Low }
    }
}

impl Mode for Monitor {
    open spec fn number(&self) -> u8 {
        2
    }

    fn id(&self) -> (r: u8) {
        2
    }

    fn pin_levels(&self) -> (r: PinLevels) {
        PinLevels { m0: Level::Low, m1: Level::High }
    }
}

impl Mode for Program {
    open spec fn number(&self) -> u8 {
        3
    }

    fn id(&self) -> (r: u8) {
        3
    }

    fn pin_levels(&self) -> (r: PinLevels) {
        PinLevels { m0: Level::High, m1: Level::High }
    }
}

/// Distinct mode numbers select distinct pin levels, so the pins tell every mode apart.
pub proof fn lemma_levels_distinct(a: u8, b: u8)
    requires
        a < 4,
        b < 4,
        a != b,
    ensures
        levels_of(a) != levels_of(b),
{
}

/// The pins of each mode, as the module's mode table gives them: normal drives both low,
/// wakeup raises M0, monitor raises M1 and program raises both.
pub proof fn lemma_mode_pins()
    ensures
        levels_of(Normal.number()) == (PinLevels { m0: Level::Low, m1: Level::Low }),
        levels_of(Wakeup.number()) == (PinLevels { m0: Level::High, m1: Level::Low }),
        levels_of(Monitor.number()) == (PinLevels { m0: Level::Low, m1: Level::High }),
        levels_of(Program.number()) == (PinLevels { m0: Level::High, m1: Level::High }),
{
}

} // verus!
