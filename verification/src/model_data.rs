use vstd::prelude::*;

verus! {

/// Model, firmware version and feature byte that a module reports about itself.
#[derive(Copy, Clone, Debug, PartialEq, Eq, Structural)]
pub struct ModelData {
    pub model: u8,
    pub version: u8,
    pub features: u8,
}

impl Default for ModelData {
    fn default() -> (r: Self)
        ensures
            r == (ModelData { model: 0, version: 0, features: 0 }),
    {
        ModelData { model: 0, version: 0, features: 0 }
    }
}

impl ModelData {
    /// The three bytes that describe the module, in the order it sends them.
    pub open spec fn encode(self) -> Seq<u8> {
        seq![self.model, self.version, self.features]
    }

    /// The model data that three bytes sent by the module describe.
    pub open spec fn decode(bytes: Seq<u8>) -> ModelData
        recommends
            bytes.len() == 3,
    {
        ModelData { model: bytes[0], version: bytes[1], features: bytes[2] }
    }

    /// Encodes the model data as the module sends it: model, version, features.
    pub fn to_bytes(self) -> (bytes: [u8; 3])
        ensures
            bytes@ == self.encode(),
            bytes[0] == self.model,
            bytes[1] == self.version,
            bytes[2] == self.features,
    {
        let bytes = [self.model, self.version, self.features];
        assert(bytes@ =~= self.encode());
        bytes
    }

    /// Decodes three bytes sent by the module: model, version, features.
    pub fn from_bytes(bytes: [u8; 3]) -> (data: Self)
        ensures
            data == ModelData::decode(bytes@),
            data.model == bytes[0],
            data.version == bytes[1],
            data.features == bytes[2],
    {
        Self { model: bytes[0], version: bytes[1], features: bytes[2] }
    }
}

/// Decoding the bytes of any model data gives it back.
pub proof fn lemma_decode_encode(data: ModelData)
    ensures
        ModelData::decode(data.encode()) == data,
{
}

/// Encoding what any three bytes decode to gives them back.
pub proof fn lemma_encode_decode(bytes: Seq<u8>)
    requires
        bytes.len() == 3,
    ensures
        ModelData::decode(bytes).encode() == bytes,
{
    assert(ModelData::decode(bytes).encode() =~= bytes);
}

} // verus!
