use vstd::prelude::*;

verus! {

/// Bits per PCM sample a run produces. Only these two depths exist.
#[derive(Clone, Copy, Debug, PartialEq, Eq, Structural)]
pub enum BitDepth {
    Eight,
    Sixteen,
}

/// One PCM sample: a signed integer sized by the bit depth that produced it.
/// Sample `i` of an output always derives from input byte `i`.
#[derive(Clone, Copy, Debug, PartialEq, Eq, Structural)]
pub enum Sample {
    Depth8(i8),
    Depth16(i16),
}

/// The signed 8-bit reinterpretation of a byte's bit pattern:
/// `0..=127` stay as they are, `128..=255` become `-128..=-1`.
pub open spec fn encoded_8(b: u8) -> int {
    if b < 128 {
        b as int
    } else {
        b as int - 256
    }
}

/// A byte shifted into the high half of a signed 16-bit sample, the low
/// byte zero: the value of `(b as i16) << 8` on two's complement.
pub open spec fn encoded_16(b: u8) -> int {
    256 * encoded_8(b)
}

/// A signed 8-bit sample back to the byte with the same bit pattern.
pub open spec fn decoded_8(v: int) -> int {
    if v >= 0 {
        v
    } else {
        v + 256
    }
}

/// What `encode` returns for every byte and depth.
pub open spec fn spec_encode(b: u8, depth: BitDepth) -> Sample {
    match depth {
        BitDepth::Eight => Sample::Depth8(encoded_8(b) as i8),
        BitDepth::Sixteen => Sample::Depth16(encoded_16(b) as i16),
    }
}

/// Reinterprets one byte as a signed 8-bit sample, bit pattern unchanged.
pub fn encode_byte_8(b: u8) -> (s: i8)
    ensures
        s as int == encoded_8(b),
{
    if b < 128 {
        b as i8
    } else {
        ((b as i16) - 256) as i8
    }
}

/// Shifts one byte into the high half of a signed 16-bit sample.
pub fn encode_byte_16(b: u8) -> (s: i16)
    ensures
        s as int == encoded_16(b),
{
    if b < 128 {
        (b as i16) * 256
    } else {
        ((b as i32) * 256 - 65536) as i16
    }
}

/// Recovers the byte whose bit pattern an 8-bit sample carries.
pub fn decode_byte_8(s: i8) -> (b: u8)
    ensures
        b as int == decoded_8(s as int),
{
    if s >= 0 {
        s as u8
    } else {
        ((s as i16) + 256) as u8
    }
}

/// Encodes one byte at the requested depth. Total: every byte maps to
/// exactly one sample, with no failure mode.
pub fn encode(b: u8, depth: BitDepth) -> (s: Sample)
    ensures
        s == spec_encode(b, depth),
{
    match depth {
        BitDepth::Eight => Sample::Depth8(encode_byte_8(b)),
        BitDepth::Sixteen => Sample::Depth16(encode_byte_16(b)),
    }
}

/// Encodes a whole input, one sample per byte, order preserved:
/// the result has exactly as many samples as there are input bytes, and
/// sample `i` encodes byte `i`. An empty input gives zero samples, not an
/// error.
pub fn encode_all(data: &Vec<u8>, depth: BitDepth) -> (samples: Vec<Sample>)
    ensures
        samples@.len() == data@.len(),
        forall|i: int| 0 <= i < data@.len() ==> samples@[i] == spec_encode(data@[i], depth),
{
    let mut samples: Vec<Sample> = Vec::new();
    let mut k: usize = 0;
    while k < data.len()
        invariant
            k <= data@.len(),
            samples@.len() == k,
            forall|i: int| 0 <= i < k ==> samples@[i] == spec_encode(data@[i], depth),
        decreases data@.len() - k,
    {
        samples.push(encode(data[k], depth));
        k = k + 1;
    }
    samples
}

/// Encodes a whole input at depth 8 as the raw signed samples themselves.
pub fn encode_all_8(data: &Vec<u8>) -> (samples: Vec<i8>)
    ensures
        samples@.len() == data@.len(),
        forall|i: int| 0 <= i < data@.len() ==> samples@[i] as int == encoded_8(data@[i]),
{
    let mut samples: Vec<i8> = Vec::new();
    let mut k: usize = 0;
    while k < data.len()
        invariant
            k <= data@.len(),
            samples@.len() == k,
            forall|i: int| 0 <= i < k ==> samples@[i] as int == encoded_8(data@[i]),
        decreases data@.len() - k,
    {
        samples.push(encode_byte_8(data[k]));
        k = k + 1;
    }
    samples
}

/// Decodes a depth-8 sample sequence back to the bytes it came from.
pub fn decode_all_8(samples: &Vec<i8>) -> (data: Vec<u8>)
    ensures
        data@.len() == samples@.len(),
        forall|i: int| 0 <= i < samples@.len() ==> data@[i] as int == decoded_8(samples@[i] as int),
{
    let mut data: Vec<u8> = Vec::new();
    let mut k: usize = 0;
    while k < samples.len()
        invariant
            k <= samples@.len(),
            data@.len() == k,
            forall|i: int| 0 <= i < k ==> data@[i] as int == decoded_8(samples@[i] as int),
        decreases samples@.len() - k,
    {
        data.push(decode_byte_8(samples[k]));
        k = k + 1;
    }
    data
}

/// Law: decoding inverts depth-8 encoding byte for byte — the bit pattern
/// survives the round trip for every byte value.
pub proof fn lemma_encode_8_round_trip(b: u8)
    ensures
        decoded_8(encoded_8(b)) == b as int,
{
}

/// Law: decoding a depth-8 encoding of a whole byte sequence gives back
/// that sequence, element for element.
pub proof fn lemma_encode_all_8_round_trip(data: Seq<u8>, samples: Seq<i8>, back: Seq<u8>)
    requires
        samples.len() == data.len(),
        forall|i: int| 0 <= i < data.len() ==> samples[i] as int == encoded_8(data[i]),
        back.len() == samples.len(),
        forall|i: int| 0 <= i < samples.len() ==> back[i] as int == decoded_8(samples[i] as int),
    ensures
        back == data,
{
    assert forall|i: int| 0 <= i < data.len() implies back[i] == data[i] by {
        lemma_encode_8_round_trip(data[i]);
    }
    assert(back =~= data);
}

/// Law: the depth-16 sample value is exactly the byte shifted left by eight
/// bits as a signed 16-bit quantity.
pub proof fn lemma_encode_16_is_shift(b: u8)
    ensures
        encoded_16(b) == ((b as i16) << 8) as int,
{
    assert(encoded_16(b) == ((b as i16) << 8) as int) by (bit_vector);
}

/// Law: depth-16 encoding is injective — distinct bytes give distinct
/// samples, so all 256 byte values stay distinguishable.
pub proof fn lemma_encode_16_injective(a: u8, b: u8)
    requires
        a != b,
    ensures
        encoded_16(a) != encoded_16(b),
{
}

} // verus!
