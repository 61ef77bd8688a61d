use ebyte_e32::parameters::{
    AirBaudRate, BaudRate, Error, ForwardErrorCorrectionMode, IoDriveMode, Parameters, Parity,
    Persistence, TransmissionMode, TransmissionPower, WakeupTime,
};

const PARITIES: [Parity; 3] = [Parity::NoParity, Parity::Odd, Parity::Even];
const BAUD_RATES: [BaudRate; 8] = [
    BaudRate::Bps1200,
    BaudRate::Bps2400,
    BaudRate::Bps4800,
    BaudRate::Bps9600,
    BaudRate::Bps19200,
    BaudRate::Bps38400,
    BaudRate::Bps57600,
    BaudRate::Bps115200,
];
const AIR_RATES: [AirBaudRate; 6] = [
    AirBaudRate::Bps300,
    AirBaudRate::Bps1200,
    AirBaudRate::Bps2400,
    AirBaudRate::Bps4800,
    AirBaudRate::Bps9600,
    AirBaudRate::Bps19200,
];
const TRANSMISSION_MODES: [TransmissionMode; 2] = [TransmissionMode::Transparent, TransmissionMode::Fixed];
const IO_DRIVE_MODES: [IoDriveMode; 2] = [IoDriveMode::PushPull, IoDriveMode::OpenCollector];
const WAKEUP_TIMES: [WakeupTime; 8] = [
    WakeupTime::Ms250,
    WakeupTime::Ms500,
    WakeupTime::Ms750,
    WakeupTime::Ms1000,
    WakeupTime::Ms1250,
    WakeupTime::Ms1500,
    WakeupTime::Ms1750,
    WakeupTime::Ms2000,
];
const FEC_MODES: [ForwardErrorCorrectionMode; 2] = [ForwardErrorCorrectionMode::On, ForwardErrorCorrectionMode::Off];
const POWERS: [TransmissionPower; 4] = [
    TransmissionPower::Dbm30,
    TransmissionPower::Dbm27,
    TransmissionPower::Dbm24,
    TransmissionPower::Dbm21,
];

fn default_parameters(address: u16, channel: u8) -> Parameters {
    Parameters {
        address,
        channel,
        uart_parity: Parity::default(),
        uart_rate: BaudRate::default(),
        air_rate: AirBaudRate::default(),
        transmission_mode: TransmissionMode::default(),
        io_drive_mode: IoDriveMode::default(),
        wakeup_time: WakeupTime::default(),
        fec: ForwardErrorCorrectionMode::default(),
        transmission_power: TransmissionPower::default(),
    }
}

#[test]
fn from_to_bytes_roundtrip() {
    for &uart_parity in &PARITIES {
        for &uart_rate in &BAUD_RATES {
            for &air_rate in &AIR_RATES {
                for &transmission_mode in &TRANSMISSION_MODES {
                    for &io_drive_mode in &IO_DRIVE_MODES {
                        for &wakeup_time in &WAKEUP_TIMES {
                            for &fec in &FEC_MODES {
                                for &transmission_power in &POWERS {
                                    for (address, channel) in [(0u16, 0u8), (0x1234, 23), (0xFFFF, 0xFF), (0x00FF, 0x80)] {
                                        let params = Parameters {
                                            address,
                                            channel,
                                            uart_parity,
                                            uart_rate,
                                            air_rate,
                                            transmission_mode,
                                            io_drive_mode,
                                            wakeup_time,
                                            fec,
                                            transmission_power,
                                        };
                                        let bytes = params.to_bytes();
                                        let decoded = Parameters::from_bytes(&bytes).unwrap();
                                        assert_eq!(decoded, params);
                                    }
                                }
                            }
                        }
                    }
                }
            }
        }
    }
}

#[test]
fn to_bytes_layout() {
    let params = Parameters {
        address: 0x1234,
        channel: 23,
        uart_parity: Parity::Odd,
        uart_rate: BaudRate::Bps9600,
        air_rate: AirBaudRate::Bps300,
        transmission_mode: TransmissionMode::Fixed,
        io_drive_mode: IoDriveMode::OpenCollector,
        wakeup_time: WakeupTime::Ms1000,
        fec: ForwardErrorCorrectionMode::Off,
        transmission_power: TransmissionPower::Dbm24,
    };
    assert_eq!(params.to_bytes(), [0x12, 0x34, 0x58, 23, 0x9A]);
}

#[test]
fn default_settings_encode_as_factory_block() {
    let params = default_parameters(0x0000, 0x17);
    assert_eq!(params.to_bytes(), [0x00, 0x00, 0x1A, 0x17, 0x44]);
    assert_eq!(Parameters::from_bytes(&[0x00, 0x00, 0x1A, 0x17, 0x44]).unwrap(), params);
}

#[test]
fn from_bytes_never_fails_and_reencodes_canonical_blocks() {
    for speed in 0u8..=255 {
        for options in 0u8..=255 {
            let bytes = [0xAB, 0xCD, speed, 0x42, options];
            let params = Parameters::from_bytes(&bytes).unwrap();
            assert_eq!(params.address, 0xABCD);
            assert_eq!(params.channel, 0x42);
            let canonical = speed >> 6 != 3 && speed & 7 <= 5;
            assert_eq!(params.to_bytes() == bytes, canonical);
        }
    }
}

#[test]
fn aliased_codes_reencode_to_their_canonical_form() {
    let params = Parameters::from_bytes(&[0, 0, 0xFF, 0, 0]).unwrap();
    assert_eq!(params.uart_parity, Parity::NoParity);
    assert_eq!(params.uart_rate, BaudRate::Bps115200);
    assert_eq!(params.air_rate, AirBaudRate::Bps19200);
    assert_eq!(params.to_bytes(), [0, 0, 0x3D, 0, 0]);
}

#[test]
fn option_byte_fields() {
    let params = Parameters::from_bytes(&[0, 0, 0, 0, 0xFF]).unwrap();
    assert_eq!(params.transmission_mode, TransmissionMode::Fixed);
    assert_eq!(params.io_drive_mode, IoDriveMode::PushPull);
    assert_eq!(params.wakeup_time, WakeupTime::Ms2000);
    assert_eq!(params.fec, ForwardErrorCorrectionMode::On);
    assert_eq!(params.transmission_power, TransmissionPower::Dbm21);
    let params = Parameters::from_bytes(&[0, 0, 0, 0, 0x00]).unwrap();
    assert_eq!(params.transmission_mode, TransmissionMode::Transparent);
    assert_eq!(params.io_drive_mode, IoDriveMode::OpenCollector);
    assert_eq!(params.wakeup_time, WakeupTime::Ms250);
    assert_eq!(params.fec, ForwardErrorCorrectionMode::Off);
    assert_eq!(params.transmission_power, TransmissionPower::Dbm30);
}

#[test]
fn settings_codes_roundtrip() {
    for &p in &PARITIES {
        assert_eq!(Parity::try_from(u8::from(p)), Ok(p));
    }
    for &r in &BAUD_RATES {
        assert_eq!(BaudRate::try_from(u8::from(r)), Ok(r));
    }
    for &r in &AIR_RATES {
        assert_eq!(AirBaudRate::try_from(u8::from(r)), Ok(r));
    }
    for &m in &TRANSMISSION_MODES {
        assert_eq!(TransmissionMode::try_from(u8::from(m)), Ok(m));
    }
    for &m in &IO_DRIVE_MODES {
        assert_eq!(IoDriveMode::try_from(u8::from(m)), Ok(m));
    }
    for &t in &WAKEUP_TIMES {
        assert_eq!(WakeupTime::try_from(u8::from(t)), Ok(t));
    }
    for &f in &FEC_MODES {
        assert_eq!(ForwardErrorCorrectionMode::try_from(u8::from(f)), Ok(f));
    }
    for &p in &POWERS {
        assert_eq!(TransmissionPower::try_from(u8::from(p)), Ok(p));
    }
}

#[test]
fn settings_codes() {
    assert_eq!(u8::from(Parity::NoParity), 0);
    assert_eq!(u8::from(Parity::Even), 2);
    assert_eq!(u8::from(BaudRate::Bps115200), 7);
    assert_eq!(u8::from(AirBaudRate::Bps19200), 5);
    assert_eq!(u8::from(TransmissionMode::Fixed), 1);
    assert_eq!(u8::from(IoDriveMode::PushPull), 1);
    assert_eq!(u8::from(IoDriveMode::OpenCollector), 0);
    assert_eq!(u8::from(WakeupTime::Ms1500), 5);
    assert_eq!(u8::from(ForwardErrorCorrectionMode::On), 1);
    assert_eq!(u8::from(TransmissionPower::Dbm21), 3);
}

#[test]
fn aliased_codes() {
    assert_eq!(Parity::try_from(3), Ok(Parity::NoParity));
    assert_eq!(AirBaudRate::try_from(6), Ok(AirBaudRate::Bps19200));
    assert_eq!(AirBaudRate::try_from(7), Ok(AirBaudRate::Bps19200));
    assert_eq!(IoDriveMode::try_from(0), Ok(IoDriveMode::OpenCollector));
    assert_eq!(IoDriveMode::try_from(1), Ok(IoDriveMode::PushPull));
}

#[test]
fn invalid_codes() {
    assert_eq!(Parity::try_from(4), Err(Error::InvalidUartParity { value: 4 }));
    assert_eq!(BaudRate::try_from(8), Err(Error::InvalidBaudrate { rate: 8 }));
    assert_eq!(AirBaudRate::try_from(200), Err(Error::InvalidBaudrate { rate: 200 }));
    assert_eq!(TransmissionMode::try_from(2), Err(Error::InvalidTransmissionMode { value: 2 }));
    assert_eq!(IoDriveMode::try_from(2), Err(Error::InvalidIoDriveMode { value: 2 }));
    assert_eq!(WakeupTime::try_from(8), Err(Error::InvalidWakeupTime { value: 8 }));
    assert_eq!(ForwardErrorCorrectionMode::try_from(9), Err(Error::InvalidFecMode { value: 9 }));
    assert_eq!(TransmissionPower::try_from(4), Err(Error::InvalidTransmissionPower { value: 4 }));
    for value in 8u8..=255 {
        assert!(BaudRate::try_from(value).is_err());
        assert!(WakeupTime::try_from(value).is_err());
    }
}

#[test]
fn defaults() {
    assert_eq!(Parity::default(), Parity::NoParity);
    assert_eq!(BaudRate::default(), BaudRate::Bps9600);
    assert_eq!(AirBaudRate::default(), AirBaudRate::Bps2400);
    assert_eq!(TransmissionMode::default(), TransmissionMode::Transparent);
    assert_eq!(IoDriveMode::default(), IoDriveMode::PushPull);
    assert_eq!(WakeupTime::default(), WakeupTime::Ms250);
    assert_eq!(ForwardErrorCorrectionMode::default(), ForwardErrorCorrectionMode::On);
    assert_eq!(TransmissionPower::default(), TransmissionPower::Dbm30);
    assert_eq!(Persistence::default(), Persistence::Temporary);
}

#[test]
fn persistence_codes() {
    assert_eq!(u8::from(Persistence::Temporary), 0xC2);
    assert_eq!(u8::from(Persistence::Permanent), 0xC0);
}

#[test]
fn builder_fills_defaults() {
    let params = Parameters::builder().address(0x0102).channel(23).build();
    assert_eq!(params, default_parameters(0x0102, 23));
}

#[test]
fn builder_sets_fields() {
    let params = Parameters::builder()
        .channel(7)
        .uart_parity(Parity::Even)
        .uart_rate(BaudRate::Bps115200)
        .air_rate(AirBaudRate::Bps300)
        .transmission_mode(TransmissionMode::Fixed)
        .io_drive_mode(IoDriveMode::OpenCollector)
        .wakeup_time(WakeupTime::Ms2000)
        .fec(ForwardErrorCorrectionMode::Off)
        .transmission_power(TransmissionPower::Dbm21)
        .address(0xFFFE)
        .build();
    assert_eq!(
        params,
        Parameters {
            address: 0xFFFE,
            channel: 7,
            uart_parity: Parity::Even,
            uart_rate: BaudRate::Bps115200,
            air_rate: AirBaudRate::Bps300,
            transmission_mode: TransmissionMode::Fixed,
            io_drive_mode: IoDriveMode::OpenCollector,
            wakeup_time: WakeupTime::Ms2000,
            fec: ForwardErrorCorrectionMode::Off,
            transmission_power: TransmissionPower::Dbm21,
        }
    );
}
