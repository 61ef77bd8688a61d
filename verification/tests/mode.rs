use ebyte_e32::mode::{Level, Mode, Monitor, Normal, PinLevels, Program, Wakeup, MODE_SWITCH_DELAY_MS};

#[test]
fn id() {
    let mode = Normal;
    assert_eq!(mode.id(), 0);

    let mode = Wakeup;
    assert_eq!(mode.id(), 1);

    let mode = Monitor;
    assert_eq!(mode.id(), 2);

    let mode = Program;
    assert_eq!(mode.id(), 3);
}

#[test]
fn pin_levels_per_mode() {
    assert_eq!(Normal.pin_levels(), PinLevels { m0: Level::Low, m1: Level::Low });
    assert_eq!(Wakeup.pin_levels(), PinLevels { m0: Level::High, m1: Level::Low });
    assert_eq!(Monitor.pin_levels(), PinLevels { m0: Level::Low, m1: Level::High });
    assert_eq!(Program.pin_levels(), PinLevels { m0: Level::High, m1: Level::High });
}

#[test]
fn pin_levels_tell_modes_apart() {
    let all = [
        Normal.pin_levels(),
        Wakeup.pin_levels(),
        Monitor.pin_levels(),
        Program.pin_levels(),
    ];
    for i in 0..all.len() {
        for j in 0..all.len() {
            assert_eq!(i == j, all[i] == all[j]);
        }
    }
}

#[test]
fn mode_switch_delay() {
    assert_eq!(MODE_SWITCH_DELAY_MS, 40);
}
