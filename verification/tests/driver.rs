use ebyte_e32::driver::{
    model_data_request, parameters_request, read_model_data_reply, read_parameters_reply,
    reset_request, write_parameters_reply, write_parameters_request, SET_PARAMETERS_DELAY_MS,
};
use ebyte_e32::parameters::{
    AirBaudRate, BaudRate, ForwardErrorCorrectionMode, IoDriveMode, Parameters, Parity,
    Persistence, TransmissionMode, TransmissionPower, WakeupTime,
};
use ebyte_e32::{Error, ModelData};

fn sample() -> Parameters {
    Parameters {
        address: 0xBEEF,
        channel: 6,
        uart_parity: Parity::Even,
        uart_rate: BaudRate::Bps57600,
        air_rate: AirBaudRate::Bps4800,
        transmission_mode: TransmissionMode::Transparent,
        io_drive_mode: IoDriveMode::PushPull,
        wakeup_time: WakeupTime::Ms750,
        fec: ForwardErrorCorrectionMode::On,
        transmission_power: TransmissionPower::Dbm27,
    }
}

#[test]
fn requests() {
    assert_eq!(model_data_request(), [0xC3, 0xC3, 0xC3]);
    assert_eq!(parameters_request(), [0xC1, 0xC1, 0xC1]);
    assert_eq!(reset_request(), [0xC4, 0xC4, 0xC4]);
    assert_eq!(SET_PARAMETERS_DELAY_MS, 40);
}

#[test]
fn reads_model_data() {
    let model_data = ModelData { model: 0x32, version: 0x48, features: 0x1E };
    let reply = read_model_data_reply(0xC3, model_data.to_bytes());
    assert_eq!(reply, Ok(model_data));
}

#[test]
fn model_data_with_wrong_echo_is_refused() {
    assert_eq!(read_model_data_reply(0xC0, [1, 2, 3]), Err(Error::ReadModelData));
    assert_eq!(read_model_data_reply(0x00, [1, 2, 3]), Err(Error::ReadModelData));
}

#[test]
fn reads_parameters() {
    let parameters = sample();
    let bytes = parameters.to_bytes();
    assert_eq!(read_parameters_reply(0xC0, &bytes), Ok(parameters));
}

#[test]
fn parameters_with_wrong_head_are_refused() {
    let bytes = sample().to_bytes();
    assert_eq!(read_parameters_reply(0xC2, &bytes), Err(Error::ReadParameters));
    assert_eq!(read_parameters_reply(0xC1, &bytes), Err(Error::ReadParameters));
}

#[test]
fn sets_parameters() {
    let parameters = sample();
    let bytes = parameters.to_bytes();
    for persistence in [Persistence::Temporary, Persistence::Permanent] {
        let frame = write_parameters_request(&parameters, persistence);
        assert_eq!(frame[0], u8::from(persistence));
        assert_eq!(&frame[1..], &bytes[..]);
        assert_eq!(write_parameters_reply(&parameters, 0xC0, &bytes), Ok(()));
    }
    assert_eq!(
        write_parameters_request(&parameters, Persistence::Permanent),
        [0xC0, 0xBE, 0xEF, 0xB3, 6, 0x55]
    );
}

#[test]
fn set_parameters_with_bad_reply_is_refused() {
    let parameters = sample();
    let bytes = parameters.to_bytes();
    assert_eq!(write_parameters_reply(&parameters, 0xC2, &bytes), Err(Error::SetParameters));
    for i in 0..5 {
        let mut echo = bytes;
        echo[i] ^= 0x01;
        assert_eq!(write_parameters_reply(&parameters, 0xC0, &echo), Err(Error::SetParameters));
    }
}
