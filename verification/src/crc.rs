//! The CRC-8 checksum that frames every encoding.
//!
//! Parameters: width 8, generator polynomial `0x1D`
//! (x^8 + x^4 + x^3 + x^2 + 1), initial register `0x00`, no input or output
//! reflection and no final XOR. The checksum is specified bit by bit as the
//! remainder of a polynomial division over GF(2); the executable code uses a
//! table of 256 precomputed remainders, and the table is proved to agree with
//! that definition.
use vstd::prelude::*;

verus! {

/// The generator polynomial x^8 + x^4 + x^3 + x^2 + 1, without its leading term.
pub const CRC8_POLYNOMIAL: u8 = 0x1d;

/// For every byte `b`, the remainder of `b * x^8` divided by the generator
/// polynomial.
pub const CRC8_TABLE: [u8; 256] = [
    0x00, 0x1d, 0x3a, 0x27, 0x74, 0x69, 0x4e, 0x53,
    0xe8, 0xf5, 0xd2, 0xcf, 0x9c, 0x81, 0xa6, 0xbb,
    0xcd, 0xd0, 0xf7, 0xea, 0xb9, 0xa4, 0x83, 0x9e,
    0x25, 0x38, 0x1f, 0x02, 0x51, 0x4c, 0x6b, 0x76,
    0x87, 0x9a, 0xbd, 0xa0, 0xf3, 0xee, 0xc9, 0xd4,
    0x6f, 0x72, 0x55, 0x48, 0x1b, 0x06, 0x21, 0x3c,
    0x4a, 0x57, 0x70, 0x6d, 0x3e, 0x23, 0x04, 0x19,
    0xa2, 0xbf, 0x98, 0x85, 0xd6, 0xcb, 0xec, 0xf1,
    0x13, 0x0e, 0x29, 0x34, 0x67, 0x7a, 0x5d, 0x40,
    0xfb, 0xe6, 0xc1, 0xdc, 0x8f, 0x92, 0xb5, 0xa8,
    0xde, 0xc3, 0xe4, 0xf9, 0xaa, 0xb7, 0x90, 0x8d,
    0x36, 0x2b, 0x0c, 0x11, 0x42, 0x5f, 0x78, 0x65,
    0x94, 0x89, 0xae, 0xb3, 0xe0, 0xfd, 0xda, 0xc7,
    0x7c, 0x61, 0x46, 0x5b, 0x08, 0x15, 0x32, 0x2f,
    0x59, 0x44, 0x63, 0x7e, 0x2d, 0x30, 0x17, 0x0a,
    0xb1, 0xac, 0x8b, 0x96, 0xc5, 0xd8, 0xff, 0xe2,
    0x26, 0x3b, 0x1c, 0x01, 0x52, 0x4f, 0x68, 0x75,
    0xce, 0xd3, 0xf4, 0xe9, 0xba, 0xa7, 0x80, 0x9d,
    0xeb, 0xf6, 0xd1, 0xcc, 0x9f, 0x82, 0xa5, 0xb8,
    0x03, 0x1e, 0x39, 0x24, 0x77, 0x6a, 0x4d, 0x50,
    0xa1, 0xbc, 0x9b, 0x86, 0xd5, 0xc8, 0xef, 0xf2,
    0x49, 0x54, 0x73, 0x6e, 0x3d, 0x20, 0x07, 0x1a,
    0x6c, 0x71, 0x56, 0x4b, 0x18, 0x05, 0x22, 0x3f,
    0x84, 0x99, 0xbe, 0xa3, 0xf0, 0xed, 0xca, 0xd7,
    0x35, 0x28, 0x0f, 0x12, 0x41, 0x5c, 0x7b, 0x66,
    0xdd, 0xc0, 0xe7, 0xfa, 0xa9, 0xb4, 0x93, 0x8e,
    0xf8, 0xe5, 0xc2, 0xdf, 0x8c, 0x91, 0xb6, 0xab,
    0x10, 0x0d, 0x2a, 0x37, 0x64, 0x79, 0x5e, 0x43,
    0xb2, 0xaf, 0x88, 0x95, 0xc6, 0xdb, 0xfc, 0xe1,
    0x5a, 0x47, 0x60, 0x7d, 0x2e, 0x33, 0x14, 0x09,
    0x7f, 0x62, 0x45, 0x58, 0x0b, 0x16, 0x31, 0x2c,
    0x97, 0x8a, 0xad, 0xb0, 0xe3, 0xfe, 0xd9, 0xc4,
];

/// Multiplies the register by `x` and reduces it by the generator polynomial.
pub open spec fn crc8_shift(reg: u8) -> u8 {
    (reg << 1) ^ (if reg & 0x80 != 0 {
        CRC8_POLYNOMIAL
    } else {
        0
    })
}

/// Applies [`crc8_shift`] `count` times.
pub open spec fn crc8_shifts(reg: u8, count: nat) -> u8
    decreases count,
{
    if count == 0 {
        reg
    } else {
        crc8_shifts(crc8_shift(reg), (count - 1) as nat)
    }
}

/// The remainder of `value * x^8` divided by the generator polynomial.
///
/// Opaque: proofs about it go through the bit-vector solver, which reads the
/// definition, and the other proofs use only what those establish.
#[verifier::opaque]
pub open spec fn crc8_remainder(value: u8) -> u8 {
    crc8_shifts(value, 8)
}

/// The register after one more byte of input.
pub open spec fn crc8_update(reg: u8, byte: u8) -> u8 {
    crc8_remainder(reg ^ byte)
}

/// The register after the bytes of `data`, starting from `reg`.
pub open spec fn crc8_from(reg: u8, data: Seq<u8>) -> u8
    decreases data.len(),
{
    if data.len() == 0 {
        reg
    } else {
        crc8_update(crc8_from(reg, data.drop_last()), data.last())
    }
}

/// The CRC-8 of `data`: the register after all of `data`, starting from zero.
pub open spec fn crc8(data: Seq<u8>) -> u8 {
    crc8_from(0, data)
}

/// The remainders of the bytes `0x00` to `0x3f`, worked out from the
/// definition.
proof fn lemma_remainders_first_quarter()
    by (bit_vector)
    ensures
        crc8_remainder(0x00) == 0x00, crc8_remainder(0x01) == 0x1d, crc8_remainder(0x02) == 0x3a, crc8_remainder(0x03) == 0x27,
        crc8_remainder(0x04) == 0x74, crc8_remainder(0x05) == 0x69, crc8_remainder(0x06) == 0x4e, crc8_remainder(0x07) == 0x53,
        crc8_remainder(0x08) == 0xe8, crc8_remainder(0x09) == 0xf5, crc8_remainder(0x0a) == 0xd2, crc8_remainder(0x0b) == 0xcf,
        crc8_remainder(0x0c) == 0x9c, crc8_remainder(0x0d) == 0x81, crc8_remainder(0x0e) == 0xa6, crc8_remainder(0x0f) == 0xbb,
        crc8_remainder(0x10) == 0xcd, crc8_remainder(0x11) == 0xd0, crc8_remainder(0x12) == 0xf7, crc8_remainder(0x13) == 0xea,
        crc8_remainder(0x14) == 0xb9, crc8_remainder(0x15) == 0xa4, crc8_remainder(0x16) == 0x83, crc8_remainder(0x17) == 0x9e,
        crc8_remainder(0x18) == 0x25, crc8_remainder(0x19) == 0x38, crc8_remainder(0x1a) == 0x1f, crc8_remainder(0x1b) == 0x02,
        crc8_remainder(0x1c) == 0x51, crc8_remainder(0x1d) == 0x4c, crc8_remainder(0x1e) == 0x6b, crc8_remainder(0x1f) == 0x76,
        crc8_remainder(0x20) == 0x87, crc8_remainder(0x21) == 0x9a, crc8_remainder(0x22) == 0xbd, crc8_remainder(0x23) == 0xa0,
        crc8_remainder(0x24) == 0xf3, crc8_remainder(0x25) == 0xee, crc8_remainder(0x26) == 0xc9, crc8_remainder(0x27) == 0xd4,
        crc8_remainder(0x28) == 0x6f, crc8_remainder(0x29) == 0x72, crc8_remainder(0x2a) == 0x55, crc8_remainder(0x2b) == 0x48,
        crc8_remainder(0x2c) == 0x1b, crc8_remainder(0x2d) == 0x06, crc8_remainder(0x2e) == 0x21, crc8_remainder(0x2f) == 0x3c,
        crc8_remainder(0x30) == 0x4a, crc8_remainder(0x31) == 0x57, crc8_remainder(0x32) == 0x70, crc8_remainder(0x33) == 0x6d,
        crc8_remainder(0x34) == 0x3e, crc8_remainder(0x35) == 0x23, crc8_remainder(0x36) == 0x04, crc8_remainder(0x37) == 0x19,
        crc8_remainder(0x38) == 0xa2, crc8_remainder(0x39) == 0xbf, crc8_remainder(0x3a) == 0x98, crc8_remainder(0x3b) == 0x85,
        crc8_remainder(0x3c) == 0xd6, crc8_remainder(0x3d) == 0xcb, crc8_remainder(0x3e) == 0xec, crc8_remainder(0x3f) == 0xf1,
{
}

/// The remainders of the bytes `0x40` to `0x7f`.
proof fn lemma_remainders_second_quarter()
    by (bit_vector)
    ensures
        crc8_remainder(0x40) == 0x13, crc8_remainder(0x41) == 0x0e, crc8_remainder(0x42) == 0x29, crc8_remainder(0x43) == 0x34,
        crc8_remainder(0x44) == 0x67, crc8_remainder(0x45) == 0x7a, crc8_remainder(0x46) == 0x5d, crc8_remainder(0x47) == 0x40,
        crc8_remainder(0x48) == 0xfb, crc8_remainder(0x49) == 0xe6, crc8_remainder(0x4a) == 0xc1, crc8_remainder(0x4b) == 0xdc,
        crc8_remainder(0x4c) == 0x8f, crc8_remainder(0x4d) == 0x92, crc8_remainder(0x4e) == 0xb5, crc8_remainder(0x4f) == 0xa8,
        crc8_remainder(0x50) == 0xde, crc8_remainder(0x51) == 0xc3, crc8_remainder(0x52) == 0xe4, crc8_remainder(0x53) == 0xf9,
        crc8_remainder(0x54) == 0xaa, crc8_remainder(0x55) == 0xb7, crc8_remainder(0x56) == 0x90, crc8_remainder(0x57) == 0x8d,
        crc8_remainder(0x58) == 0x36, crc8_remainder(0x59) == 0x2b, crc8_remainder(0x5a) == 0x0c, crc8_remainder(0x5b) == 0x11,
        crc8_remainder(0x5c) == 0x42, crc8_remainder(0x5d) == 0x5f, crc8_remainder(0x5e) == 0x78, crc8_remainder(0x5f) == 0x65,
        crc8_remainder(0x60) == 0x94, crc8_remainder(0x61) == 0x89, crc8_remainder(0x62) == 0xae, crc8_remainder(0x63) == 0xb3,
        crc8_remainder(0x64) == 0xe0, crc8_remainder(0x65) == 0xfd, crc8_remainder(0x66) == 0xda, crc8_remainder(0x67) == 0xc7,
        crc8_remainder(0x68) == 0x7c, crc8_remainder(0x69) == 0x61, crc8_remainder(0x6a) == 0x46, crc8_remainder(0x6b) == 0x5b,
        crc8_remainder(0x6c) == 0x08, crc8_remainder(0x6d) == 0x15, crc8_remainder(0x6e) == 0x32, crc8_remainder(0x6f) == 0x2f,
        crc8_remainder(0x70) == 0x59, crc8_remainder(0x71) == 0x44, crc8_remainder(0x72) == 0x63, crc8_remainder(0x73) == 0x7e,
        crc8_remainder(0x74) == 0x2d, crc8_remainder(0x75) == 0x30, crc8_remainder(0x76) == 0x17, crc8_remainder(0x77) == 0x0a,
        crc8_remainder(0x78) == 0xb1, crc8_remainder(0x79) == 0xac, crc8_remainder(0x7a) == 0x8b, crc8_remainder(0x7b) == 0x96,
        crc8_remainder(0x7c) == 0xc5, crc8_remainder(0x7d) == 0xd8, crc8_remainder(0x7e) == 0xff, crc8_remainder(0x7f) == 0xe2,
{
}

/// The remainders of the bytes `0x80` to `0xbf`.
proof fn lemma_remainders_third_quarter()
    by (bit_vector)
    ensures
        crc8_remainder(0x80) == 0x26, crc8_remainder(0x81) == 0x3b, crc8_remainder(0x82) == 0x1c, crc8_remainder(0x83) == 0x01,
        crc8_remainder(0x84) == 0x52, crc8_remainder(0x85) == 0x4f, crc8_remainder(0x86) == 0x68, crc8_remainder(0x87) == 0x75,
        crc8_remainder(0x88) == 0xce, crc8_remainder(0x89) == 0xd3, crc8_remainder(0x8a) == 0xf4, crc8_remainder(0x8b) == 0xe9,
        crc8_remainder(0x8c) == 0xba, crc8_remainder(0x8d) == 0xa7, crc8_remainder(0x8e) == 0x80, crc8_remainder(0x8f) == 0x9d,
        crc8_remainder(0x90) == 0xeb, crc8_remainder(0x91) == 0xf6, crc8_remainder(0x92) == 0xd1, crc8_remainder(0x93) == 0xcc,
        crc8_remainder(0x94) == 0x9f, crc8_remainder(0x95) == 0x82, crc8_remainder(0x96) == 0xa5, crc8_remainder(0x97) == 0xb8,
        crc8_remainder(0x98) == 0x03, crc8_remainder(0x99) == 0x1e, crc8_remainder(0x9a) == 0x39, crc8_remainder(0x9b) == 0x24,
        crc8_remainder(0x9c) == 0x77, crc8_remainder(0x9d) == 0x6a, crc8_remainder(0x9e) == 0x4d, crc8_remainder(0x9f) == 0x50,
        crc8_remainder(0xa0) == 0xa1, crc8_remainder(0xa1) == 0xbc, crc8_remainder(0xa2) == 0x9b, crc8_remainder(0xa3) == 0x86,
        crc8_remainder(0xa4) == 0xd5, crc8_remainder(0xa5) == 0xc8, crc8_remainder(0xa6) == 0xef, crc8_remainder(0xa7) == 0xf2,
        crc8_remainder(0xa8) == 0x49, crc8_remainder(0xa9) == 0x54, crc8_remainder(0xaa) == 0x73, crc8_remainder(0xab) == 0x6e,
        crc8_remainder(0xac) == 0x3d, crc8_remainder(0xad) == 0x20, crc8_remainder(0xae) == 0x07, crc8_remainder(0xaf) == 0x1a,
        crc8_remainder(0xb0) == 0x6c, crc8_remainder(0xb1) == 0x71, crc8_remainder(0xb2) == 0x56, crc8_remainder(0xb3) == 0x4b,
        crc8_remainder(0xb4) == 0x18, crc8_remainder(0xb5) == 0x05, crc8_remainder(0xb6) == 0x22, crc8_remainder(0xb7) == 0x3f,
        crc8_remainder(0xb8) == 0x84, crc8_remainder(0xb9) == 0x99, crc8_remainder(0xba) == 0xbe, crc8_remainder(0xbb) == 0xa3,
        crc8_remainder(0xbc) == 0xf0, crc8_remainder(0xbd) == 0xed, crc8_remainder(0xbe) == 0xca, crc8_remainder(0xbf) == 0xd7,
{
}

/// The remainders of the bytes `0xc0` to `0xff`.
proof fn lemma_remainders_fourth_quarter()
    by (bit_vector)
    ensures
        crc8_remainder(0xc0) == 0x35, crc8_remainder(0xc1) == 0x28, crc8_remainder(0xc2) == 0x0f, crc8_remainder(0xc3) == 0x12,
        crc8_remainder(0xc4) == 0x41, crc8_remainder(0xc5) == 0x5c, crc8_remainder(0xc6) == 0x7b, crc8_remainder(0xc7) == 0x66,
        crc8_remainder(0xc8) == 0xdd, crc8_remainder(0xc9) == 0xc0, crc8_remainder(0xca) == 0xe7, crc8_remainder(0xcb) == 0xfa,
        crc8_remainder(0xcc) == 0xa9, crc8_remainder(0xcd) == 0xb4, crc8_remainder(0xce) == 0x93, crc8_remainder(0xcf) == 0x8e,
        crc8_remainder(0xd0) == 0xf8, crc8_remainder(0xd1) == 0xe5, crc8_remainder(0xd2) == 0xc2, crc8_remainder(0xd3) == 0xdf,
        crc8_remainder(0xd4) == 0x8c, crc8_remainder(0xd5) == 0x91, crc8_remainder(0xd6) == 0xb6, crc8_remainder(0xd7) == 0xab,
        crc8_remainder(0xd8) == 0x10, crc8_remainder(0xd9) == 0x0d, crc8_remainder(0xda) == 0x2a, crc8_remainder(0xdb) == 0x37,
        crc8_remainder(0xdc) == 0x64, crc8_remainder(0xdd) == 0x79, crc8_remainder(0xde) == 0x5e, crc8_remainder(0xdf) == 0x43,
        crc8_remainder(0xe0) == 0xb2, crc8_remainder(0xe1) == 0xaf, crc8_remainder(0xe2) == 0x88, crc8_remainder(0xe3) == 0x95,
        crc8_remainder(0xe4) == 0xc6, crc8_remainder(0xe5) == 0xdb, crc8_remainder(0xe6) == 0xfc, crc8_remainder(0xe7) == 0xe1,
        crc8_remainder(0xe8) == 0x5a, crc8_remainder(0xe9) == 0x47, crc8_remainder(0xea) == 0x60, crc8_remainder(0xeb) == 0x7d,
        crc8_remainder(0xec) == 0x2e, crc8_remainder(0xed) == 0x33, crc8_remainder(0xee) == 0x14, crc8_remainder(0xef) == 0x09,
        crc8_remainder(0xf0) == 0x7f, crc8_remainder(0xf1) == 0x62, crc8_remainder(0xf2) == 0x45, crc8_remainder(0xf3) == 0x58,
        crc8_remainder(0xf4) == 0x0b, crc8_remainder(0xf5) == 0x16, crc8_remainder(0xf6) == 0x31, crc8_remainder(0xf7) == 0x2c,
        crc8_remainder(0xf8) == 0x97, crc8_remainder(0xf9) == 0x8a, crc8_remainder(0xfa) == 0xad, crc8_remainder(0xfb) == 0xb0,
        crc8_remainder(0xfc) == 0xe3, crc8_remainder(0xfd) == 0xfe, crc8_remainder(0xfe) == 0xd9, crc8_remainder(0xff) == 0xc4,
{
}

/// Every entry of [`CRC8_TABLE`] is the remainder that the polynomial
/// division defines.
pub proof fn lemma_crc8_table()
    ensures
        forall|value: u8| #[trigger] CRC8_TABLE[value as int] == crc8_remainder(value),
{
    lemma_remainders_first_quarter();
    lemma_remainders_second_quarter();
    lemma_remainders_third_quarter();
    lemma_remainders_fourth_quarter();
}

/// Appending one byte advances the checksum by one update step.
pub proof fn lemma_crc8_push(data: Seq<u8>, byte: u8)
    ensures
        crc8(data.push(byte)) == crc8_update(crc8(data), byte),
{
    assert(data.push(byte).drop_last() =~= data);
}

/// The checksum of a concatenation continues from the checksum of its first
/// part.
pub proof fn lemma_crc8_concat(reg: u8, head: Seq<u8>, tail: Seq<u8>)
    ensures
        crc8_from(reg, head + tail) == crc8_from(crc8_from(reg, head), tail),
    decreases tail.len(),
{
    if tail.len() == 0 {
        assert(head + tail =~= head);
    } else {
        lemma_crc8_concat(reg, head, tail.drop_last());
        assert((head + tail).drop_last() =~= head + tail.drop_last());
    }
}

/// The checksum of no data is zero.
pub proof fn lemma_crc8_empty()
    ensures
        crc8(Seq::<u8>::empty()) == 0,
{
}

/// Data followed by its own checksum has checksum zero.
pub proof fn lemma_crc8_fixed_point(data: Seq<u8>)
    ensures
        crc8(data.push(crc8(data))) == 0,
{
    lemma_crc8_push(data, crc8(data));
    let c = crc8(data);
    assert(crc8_remainder(c ^ c) == 0) by (bit_vector);
}

/// Only the zero register is taken to zero by its own value as input: a
/// sequence has checksum zero exactly if its last byte is the checksum of
/// the bytes before it.
pub proof fn lemma_crc8_zero_iff_framed(data: Seq<u8>)
    requires
        data.len() > 0,
    ensures
        crc8(data) == 0 <==> data.last() == crc8(data.drop_last()),
{
    let c = crc8(data.drop_last());
    let b = data.last();
    assert(crc8_remainder(c ^ b) == 0 <==> b == c) by (bit_vector);
}

/// For a fixed input byte the update step is one-to-one in the register.
pub proof fn lemma_crc8_update_injective(reg1: u8, reg2: u8, byte: u8)
    ensures
        crc8_update(reg1, byte) == crc8_update(reg2, byte) <==> reg1 == reg2,
{
    assert(crc8_remainder(reg1 ^ byte) == crc8_remainder(reg2 ^ byte) <==> reg1 == reg2)
        by (bit_vector);
}

/// For a fixed register the update step is one-to-one in the input byte.
pub proof fn lemma_crc8_update_injective_in_byte(reg: u8, byte1: u8, byte2: u8)
    ensures
        crc8_update(reg, byte1) == crc8_update(reg, byte2) <==> byte1 == byte2,
{
    assert(crc8_remainder(reg ^ byte1) == crc8_remainder(reg ^ byte2) <==> byte1 == byte2)
        by (bit_vector);
}

/// Two different bytes fed in both orders leave different registers.
pub proof fn lemma_crc8_update_order(reg: u8, byte1: u8, byte2: u8)
    requires
        byte1 != byte2,
    ensures
        crc8_update(crc8_update(reg, byte1), byte2) != crc8_update(
            crc8_update(reg, byte2),
            byte1,
        ),
{
    let after1 = crc8_update(reg, byte1);
    let after2 = crc8_update(reg, byte2);
    assert(byte1 != byte2 ==> (crc8_remainder(reg ^ byte1) ^ byte2) != (crc8_remainder(reg ^ byte2)
        ^ byte1)) by (bit_vector);
    lemma_crc8_update_injective(after1 ^ byte2, after2 ^ byte1, 0);
    assert((after1 ^ byte2) ^ 0 == after1 ^ byte2) by (bit_vector);
    assert((after2 ^ byte1) ^ 0 == after2 ^ byte1) by (bit_vector);
}

/// Different registers stay different over the same further input.
pub proof fn lemma_crc8_from_injective(reg1: u8, reg2: u8, data: Seq<u8>)
    ensures
        crc8_from(reg1, data) == crc8_from(reg2, data) <==> reg1 == reg2,
    decreases data.len(),
{
    if data.len() > 0 {
        lemma_crc8_from_injective(reg1, reg2, data.drop_last());
        lemma_crc8_update_injective(
            crc8_from(reg1, data.drop_last()),
            crc8_from(reg2, data.drop_last()),
            data.last(),
        );
    }
}

/// Replacing one byte by a different one changes the checksum.
pub proof fn lemma_crc8_detects_substitution(data: Seq<u8>, index: int, byte: u8)
    requires
        0 <= index < data.len(),
        byte != data[index],
    ensures
        crc8(data.update(index, byte)) != crc8(data),
{
    let head = data.take(index);
    let tail = data.skip(index + 1);
    let changed = data.update(index, byte);
    assert(data =~= head.push(data[index]) + tail);
    assert(changed =~= head.push(byte) + tail);
    lemma_crc8_concat(0, head.push(data[index]), tail);
    lemma_crc8_concat(0, head.push(byte), tail);
    lemma_crc8_push(head, data[index]);
    lemma_crc8_push(head, byte);
    lemma_crc8_update_injective_in_byte(crc8(head), data[index], byte);
    lemma_crc8_from_injective(crc8(head.push(data[index])), crc8(head.push(byte)), tail);
}

/// Exchanging two neighbouring bytes that differ changes the checksum.
pub proof fn lemma_crc8_detects_transposition(data: Seq<u8>, index: int)
    requires
        0 <= index,
        index + 1 < data.len(),
        data[index] != data[index + 1],
    ensures
        crc8(data.update(index, data[index + 1]).update(index + 1, data[index])) != crc8(data),
{
    let head = data.take(index);
    let tail = data.skip(index + 2);
    let first = data[index];
    let second = data[index + 1];
    let swapped = data.update(index, second).update(index + 1, first);
    assert(data =~= head.push(first).push(second) + tail);
    assert(swapped =~= head.push(second).push(first) + tail);
    lemma_crc8_concat(0, head.push(first).push(second), tail);
    lemma_crc8_concat(0, head.push(second).push(first), tail);
    lemma_crc8_push(head, first);
    lemma_crc8_push(head, second);
    lemma_crc8_push(head.push(first), second);
    lemma_crc8_push(head.push(second), first);
    lemma_crc8_update_order(crc8(head), first, second);
    lemma_crc8_from_injective(
        crc8(head.push(first).push(second)),
        crc8(head.push(second).push(first)),
        tail,
    );
}

/// Calculates the CRC-8 of `data` with the precomputed table.
#[must_use]
pub fn calculate_crc8(data: &[u8]) -> (crc: u8)
    ensures
        crc == crc8(data@),
{
    let mut crc: u8 = 0;
    let mut index: usize = 0;
    while index < data.len()
        invariant
            index <= data@.len(),
            crc == crc8(data@.take(index as int)),
        decreases data@.len() - index,
    {
        proof {
            lemma_crc8_table();
            lemma_crc8_push(data@.take(index as int), data@[index as int]);
            assert(data@.take(index as int + 1) =~= data@.take(index as int).push(
                data@[index as int],
            ));
        }
        crc = CRC8_TABLE[(crc ^ data[index]) as usize];
        index += 1;
    }
    assert(data@.take(index as int) =~= data@);
    crc
}

} // verus!
