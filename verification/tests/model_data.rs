use ebyte_e32::ModelData;

#[test]
fn model_data_from_to_bytes_roundtrip() {
    for model in [0u8, 1, 0x32, 0x7F, 0x80, 0xFF] {
        for version in [0u8, 0x10, 0x44, 0xFF] {
            for features in [0u8, 0x14, 0xAA, 0xFF] {
                let model_data = ModelData { model, version, features };
                let bytes = model_data.to_bytes();
                let decoded = ModelData::from_bytes(bytes);
                assert_eq!(model_data, decoded);
            }
        }
    }
}

#[test]
fn model_data_byte_order() {
    let data = ModelData { model: 0x32, version: 0x44, features: 0x14 };
    assert_eq!(data.to_bytes(), [0x32, 0x44, 0x14]);
    assert_eq!(ModelData::from_bytes([1, 2, 3]), ModelData { model: 1, version: 2, features: 3 });
}

#[test]
fn model_data_to_from_bytes_roundtrip() {
    for a in (0u8..=255).step_by(17) {
        let bytes = [a, a.wrapping_mul(3), a ^ 0x5A];
        assert_eq!(ModelData::from_bytes(bytes).to_bytes(), bytes);
    }
}

#[test]
fn model_data_default_is_zero() {
    assert_eq!(ModelData::default(), ModelData { model: 0, version: 0, features: 0 });
}
