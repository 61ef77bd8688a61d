use vstd::prelude::*;
use crate::error::Error;
use crate::model_data::ModelData;
use crate::parameters::{Parameters, Persistence};
use crate::parameters::Persistence::{Permanent, Temporary};

verus! {

/// Command byte, sent three times, that asks for the model data.
pub const MODEL_DATA_COMMAND: u8 = 0xC3;

/// Command byte, sent three times, that asks for the parameter block.
pub const PARAMETERS_COMMAND: u8 = 0xC1;

/// Command byte, sent three times, that resets the module.
pub const RESET_COMMAND: u8 = 0xC4;

/// Head byte of the module's reply that carries a parameter block.
pub const PARAMETERS_REPLY_HEAD: u8 = 0xC0;

/// Milliseconds to wait after the module has accepted new parameters.
pub const SET_PARAMETERS_DELAY_MS: u32 = 40;

/// What the module's reply to a model data request means: `save` is the echoed command,
/// `bytes` the model, version and feature bytes.
pub open spec fn model_data_outcome(save: u8, bytes: Seq<u8>) -> Result<ModelData, Error> {
    if save == MODEL_DATA_COMMAND {
        Ok(ModelData::decode(bytes))
    } else {
        Err(Error::ReadModelData)
    }
}

/// What the module's reply to a parameter request means: `save` is the reply's head byte,
/// `bytes` the parameter block that follows it.
pub open spec fn parameters_outcome(save: u8, bytes: Seq<u8>) -> Result<Parameters, Error> {
    if save != PARAMETERS_REPLY_HEAD {
        Err(Error::ReadParameters)
    } else {
        match Parameters::decode(bytes) {
            Ok(params) => Ok(params),
            Err(source) => Err(Error::Parameter { source }),
        }
    }
}

/// The frame that writes `params` with the given persistence: the persistence's head byte,
/// then the parameter block.
pub open spec fn set_parameters_frame(params: Parameters, mode: Persistence) -> Seq<u8> {
    seq![mode.code()] + params.encode()
}

/// Whether the module's reply to a parameter write confirms it: the reply's head byte is
/// the parameter reply head and the block it carries is the one that was written.
pub open spec fn set_parameters_confirmed(params: Parameters, head: u8, echo: Seq<u8>) -> bool {
    head == PARAMETERS_REPLY_HEAD && echo == params.encode()
}

/// A command byte sent three times.
fn repeated_command(command: u8) -> (r: [u8; 3])
    ensures
        r@ == seq![command, command, command],
{
    let r = [command, command, command];
    assert(r@ =~= seq![command, command, command]);
    r
}

/// The bytes that ask the module for its model data.
pub fn model_data_request() -> (r: [u8; 3])
    ensures
        r@ == seq![MODEL_DATA_COMMAND, MODEL_DATA_COMMAND, MODEL_DATA_COMMAND],
{
    repeated_command(MODEL_DATA_COMMAND)
}

/// Interprets the module's reply to a model data request.
pub fn read_model_data_reply(save: u8, bytes: [u8; 3]) -> (r: Result<ModelData, Error>)
    ensures
        r == model_data_outcome(save, bytes@),
        r is Ok <==> save == 0xC3,
        r matches Ok(d) ==> d.model == bytes[0] && d.version == bytes[1] && d.features == bytes[2],
        r is Err ==> r == Err::<ModelData, Error>(Error::ReadModelData),
{
    if save == MODEL_DATA_COMMAND {
        Ok(ModelData::from_bytes(bytes))
    } else {
        Err(Error::ReadModelData)
    }
}

/// The bytes that ask the module for its parameter block.
pub fn parameters_request() -> (r: [u8; 3])
    ensures
        r@ == seq![PARAMETERS_COMMAND, PARAMETERS_COMMAND, PARAMETERS_COMMAND],
{
    repeated_command(PARAMETERS_COMMAND)
}

/// Interprets the module's reply to a parameter request.
pub fn read_parameters_reply(save: u8, bytes: &[u8; 5]) -> (r: Result<Parameters, Error>)
    ensures
        r == parameters_outcome(save, bytes@),
        r is Ok <==> save == 0xC0,
        save != 0xC0 ==> r == Err::<Parameters, Error>(Error::ReadParameters),
        save == 0xC0 ==> r == Ok::<Parameters, Error>(Parameters::decode(bytes@).unwrap()),
{
    proof {
        crate::parameters::lemma_decode_total(bytes@);
    }
    if save != PARAMETERS_REPLY_HEAD {
        return Err(Error::ReadParameters);
    }
    match Parameters::from_bytes(bytes) {
        Ok(params) => Ok(params),
        Err(source) => Err(Error::Parameter { source }),
    }
}

/// The bytes that write `params` to the module with the given persistence.
pub fn write_parameters_request(params: &Parameters, mode: Persistence) -> (r: [u8; 6])
    ensures
        r@ == set_parameters_frame(*params, mode),
        r[0] == 0xC0 <==> mode is Permanent,
        r[0] == 0xC2 <==> mode is Temporary,
        r@.subrange(1, 6) == params.encode(),
{
    let persistence = u8::from(mode);
    let bytes = params.to_bytes();
    let r = [persistence, bytes[0], bytes[1], bytes[2], bytes[3], bytes[4]];
    assert(r@ =~= set_parameters_frame(*params, mode));
    assert(r@.subrange(1, 6) =~= params.encode());
    r
}

/// Checks the module's reply to a parameter write of `params`.
pub fn write_parameters_reply(params: &Parameters, head: u8, echo: &[u8; 5]) -> (r: Result<
    (),
    Error,
>)
    ensures
        r is Ok <==> set_parameters_confirmed(*params, head, echo@),
        r is Ok <==> head == 0xC0 && echo@ == params.encode(),
        r is Err ==> r == Err::<(), Error>(Error::SetParameters),
{
    if head != PARAMETERS_REPLY_HEAD {
        return Err(Error::SetParameters);
    }
    let bytes = params.to_bytes();
    let mut i: usize = 0;
    while i < 5
        invariant
            i <= 5,
            bytes@ == params.encode(),
            forall|j: int| 0 <= j < i ==> echo@[j] == bytes@[j],
        decreases 5 - i,
    {
        if echo[i] != bytes[i] {
            return Err(Error::SetParameters);
        }
        i += 1;
    }
    assert(echo@ =~= bytes@);
    Ok(())
}

/// The bytes that reset the module.
pub fn reset_request() -> (r: [u8; 3])
    ensures
        r@ == seq![RESET_COMMAND, RESET_COMMAND, RESET_COMMAND],
{
    repeated_command(RESET_COMMAND)
}

/// A module that echoes the model data command and sends the bytes of `data` is read as
/// reporting `data`.
pub proof fn lemma_model_data_read_back(data: ModelData)
    ensures
        model_data_outcome(MODEL_DATA_COMMAND, data.encode()) == Ok::<ModelData, Error>(data),
{
    crate::model_data::lemma_decode_encode(data);
}

/// A module that answers a parameter request with the head byte and the encoding of
/// `params` is read as holding `params`.
pub proof fn lemma_parameters_read_back(params: Parameters)
    ensures
        parameters_outcome(PARAMETERS_REPLY_HEAD, params.encode()) == Ok::<Parameters, Error>(
            params,
        ),
{
    crate::parameters::lemma_decode_encode(params);
}

/// A module that echoes the block of a parameter write, behind the reply head, confirms it;
/// the block it echoes is the frame without its head byte.
pub proof fn lemma_write_confirmed_by_echo(params: Parameters, mode: Persistence)
    ensures
        set_parameters_confirmed(
            params,
            PARAMETERS_REPLY_HEAD,
            set_parameters_frame(params, mode).drop_first(),
        ),
        set_parameters_frame(params, mode).len() == 6,
{
    assert(set_parameters_frame(params, mode).drop_first() =~= params.encode());
}

/// A model data reply is taken exactly when its echo byte is the command 0xC3; then the
/// model, version and features are the three bytes that follow, in order, and otherwise
/// the reply is refused as `ReadModelData`.
pub proof fn lemma_model_data_outcome(save: u8, bytes: Seq<u8>)
    requires
        bytes.len() == 3,
    ensures
        model_data_outcome(save, bytes) is Ok <==> save == 0xC3,
        save != 0xC3 ==> model_data_outcome(save, bytes) == Err::<ModelData, Error>(
            Error::ReadModelData,
        ),
        model_data_outcome(save, bytes) matches Ok(d) ==> d.model == bytes[0] && d.version
            == bytes[1] && d.features == bytes[2],
{
}

/// A parameter reply is taken exactly when its head byte is 0xC0, and is otherwise refused
/// as `ReadParameters`.
pub proof fn lemma_parameters_outcome(save: u8, bytes: Seq<u8>)
    requires
        bytes.len() == 5,
    ensures
        parameters_outcome(save, bytes) is Ok <==> save == 0xC0,
        save != 0xC0 ==> parameters_outcome(save, bytes) == Err::<Parameters, Error>(
            Error::ReadParameters,
        ),
        save == 0xC0 ==> parameters_outcome(save, bytes) == Ok::<Parameters, Error>(
            Parameters::decode(bytes).unwrap(),
        ),
{
    crate::parameters::lemma_decode_total(bytes);
}

/// A parameter write is confirmed only by the head 0xC0 followed by the written block,
/// byte for byte: an echo that differs from the block anywhere refuses it.
pub proof fn lemma_confirmation_exact(params: Parameters, head: u8, echo: Seq<u8>)
    ensures
        set_parameters_confirmed(params, head, echo) <==> head == 0xC0 && echo == params.encode(),
        forall|i: int|
            0 <= i < 5 && echo.len() == 5 && #[trigger] echo[i] != params.encode()[i]
                ==> !set_parameters_confirmed(params, head, echo),
{
}

} // verus!
