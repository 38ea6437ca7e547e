use sonify::encoder::{
    decode_all_8, decode_byte_8, encode, encode_all, encode_all_8, encode_byte_16, encode_byte_8,
    BitDepth, Sample,
};

#[test]
fn eight_bit_is_bit_pattern_reinterpretation() {
    assert_eq!(encode_byte_8(0x00), 0i8);
    assert_eq!(encode_byte_8(0x01), 1i8);
    assert_eq!(encode_byte_8(0x7F), 127i8);
    assert_eq!(encode_byte_8(0x80), -128i8);
    assert_eq!(encode_byte_8(0xFF), -1i8);
}

#[test]
fn eight_bit_round_trip_all_bytes() {
    for b in 0u16..256 {
        let byte = b as u8;
        assert_eq!(decode_byte_8(encode_byte_8(byte)), byte);
    }
}

#[test]
fn eight_bit_round_trip_sequence() {
    let data: Vec<u8> = vec![0x00, 0x01, 0x7F, 0x80, 0x81, 0xFE, 0xFF, 0x2A];
    let samples = encode_all_8(&data);
    let back = decode_all_8(&samples);
    assert_eq!(back, data);
}

#[test]
fn sixteen_bit_is_byte_shifted_high() {
    for b in 0u16..256 {
        let byte = b as u8;
        assert_eq!(encode_byte_16(byte), (byte as i16) << 8);
    }
}

#[test]
fn sixteen_bit_is_injective() {
    for a in 0u16..256 {
        for b in 0u16..256 {
            if a != b {
                assert_ne!(encode_byte_16(a as u8), encode_byte_16(b as u8));
            }
        }
    }
}

#[test]
fn sixteen_bit_three_byte_scenario() {
    let data: Vec<u8> = vec![0x00, 0x80, 0xFF];
    let samples = encode_all(&data, BitDepth::Sixteen);
    assert_eq!(
        samples,
        vec![
            Sample::Depth16(0),
            Sample::Depth16(-32768),
            Sample::Depth16(-256),
        ]
    );
}

#[test]
fn sample_count_matches_input_length_in_order() {
    let data: Vec<u8> = (0u8..=255).collect();
    let samples = encode_all(&data, BitDepth::Eight);
    assert_eq!(samples.len(), data.len());
    for (i, &byte) in data.iter().enumerate() {
        assert_eq!(samples[i], Sample::Depth8(byte as i8));
    }
    let samples16 = encode_all(&data, BitDepth::Sixteen);
    assert_eq!(samples16.len(), data.len());
    for (i, &byte) in data.iter().enumerate() {
        assert_eq!(samples16[i], Sample::Depth16((byte as i16) << 8));
    }
}

#[test]
fn empty_input_gives_zero_samples_not_an_error() {
    let data: Vec<u8> = vec![];
    assert_eq!(encode_all(&data, BitDepth::Eight).len(), 0);
    assert_eq!(encode_all(&data, BitDepth::Sixteen).len(), 0);
    assert_eq!(encode_all_8(&data).len(), 0);
}

#[test]
fn single_byte_encoding_matches_pointwise_functions() {
    for b in 0u16..256 {
        let byte = b as u8;
        assert_eq!(encode(byte, BitDepth::Eight), Sample::Depth8(encode_byte_8(byte)));
        assert_eq!(encode(byte, BitDepth::Sixteen), Sample::Depth16(encode_byte_16(byte)));
    }
}
