//! The fields of a 32-bit opcode, as numbers.
//!
//! Bit `n` of an opcode weighs `2^n`, so the field of bits `hi` down to `lo` is
//! the opcode divided by `2^lo`, modulo `2^(hi - lo + 1)`.
use vstd::prelude::*;

verus! {

/// Bits 6 to 0: the primary opcode.
pub open spec fn major(opcode: u32) -> int {
    (opcode % 0x80) as int
}

/// Bits 14 to 12.
pub open spec fn funct3(opcode: u32) -> int {
    (opcode / 0x1000 % 8) as int
}

/// Bits 31 to 25.
pub open spec fn funct7(opcode: u32) -> int {
    (opcode / 0x200_0000) as int
}

/// Bits 31 to 26: what is left of `funct7` where a shift amount has six bits.
pub open spec fn funct6(opcode: u32) -> int {
    (opcode / 0x400_0000) as int
}

/// Bits 11 to 7: the destination register.
pub open spec fn rd(opcode: u32) -> u8 {
    (opcode / 0x80 % 0x20) as u8
}

/// Bits 19 to 15: the first source register.
pub open spec fn rs1(opcode: u32) -> u8 {
    (opcode / 0x8000 % 0x20) as u8
}

/// Bits 24 to 20: the second source register.
pub open spec fn rs2(opcode: u32) -> u8 {
    (opcode / 0x10_0000 % 0x20) as u8
}

/// Bit 31, the sign of every immediate: 1 where the immediate is negative.
pub open spec fn sign(opcode: u32) -> int {
    (opcode / 0x8000_0000) as int
}

/// The low bits of the first halfword of an opcode are the low bits of its
/// primary opcode.
pub proof fn lemma_halfword(opcode: u32)
    by (bit_vector)
    ensures
        (opcode as u16) % 4 == (opcode % 0x80) % 4 && (opcode as u16) % 0x20 == (opcode % 0x80)
            % 0x20,
{
}

/// What the masks of the classifier select, in terms of the fields.
pub(crate) proof fn lemma_masks(opcode: u32)
    by (bit_vector)
    ensures
        opcode & 0b111_1111 == opcode % 0x80,
        (opcode >> 12) & 0b111 == opcode / 0x1000 % 8,
        (opcode >> 12) & 0b111 < 8,
        opcode & 0xFE00_0000 == (opcode / 0x200_0000) * 0x200_0000,
        opcode & 0xFE00_707F == (opcode / 0x200_0000) * 0x200_0000 + (opcode / 0x1000 % 8) * 0x1000
            + opcode % 0x80,
        opcode & 0xFC00_707F == (opcode / 0x400_0000) * 0x400_0000 + (opcode / 0x1000 % 8) * 0x1000
            + opcode % 0x80,
{
}

/// The immediate of the I format: bits 31 to 20, a signed number of 12 bits.
pub open spec fn imm_i(opcode: u32) -> int {
    opcode / 0x10_0000 - sign(opcode) * 0x1000
}

/// The immediate of the S format: bits 31 to 25 above bits 11 to 7, a signed
/// number of 12 bits.
pub open spec fn imm_s(opcode: u32) -> int {
    (opcode / 0x200_0000) * 0x20 + opcode / 0x80 % 0x20 - sign(opcode) * 0x1000
}

/// The immediate of the B format, a signed even number of 13 bits: bit 31
/// is its sign, bit 7 weighs `2^11`, bits 30 to 25 weigh `2^5` and bits 11
/// to 8 weigh 2.
pub open spec fn imm_b(opcode: u32) -> int {
    (opcode / 0x80 % 2) * 0x800 + (opcode / 0x200_0000 % 0x40) * 0x20 + (opcode / 0x100 % 0x10) * 2
        - sign(opcode) * 0x1000
}

/// The immediate of the U format: the opcode with its low 12 bits cleared,
/// as a signed number of 32 bits.
pub open spec fn imm_u(opcode: u32) -> int {
    (opcode / 0x1000) * 0x1000 - sign(opcode) * 0x1_0000_0000
}

/// The immediate of the J format, a signed even number of 21 bits: bit 31
/// is its sign, bits 19 to 12 weigh `2^12`, bit 20 weighs `2^11` and bits
/// 30 to 21 weigh 2.
pub open spec fn imm_j(opcode: u32) -> int {
    (opcode / 0x1000 % 0x100) * 0x1000 + (opcode / 0x10_0000 % 2) * 0x800 + (opcode / 0x20_0000
        % 0x400) * 2 - sign(opcode) * 0x10_0000
}

/// The ranges of the immediates: each fits the `i32` that holds it, and the
/// offsets of branches and jumps are even.
pub proof fn lemma_imm_ranges(opcode: u32)
    ensures
        -0x800 <= imm_i(opcode) < 0x800,
        -0x800 <= imm_s(opcode) < 0x800,
        -0x1000 <= imm_b(opcode) < 0x1000,
        imm_b(opcode) % 2 == 0,
        -0x8000_0000 <= imm_u(opcode) < 0x8000_0000,
        imm_u(opcode) % 0x1000 == 0,
        -0x10_0000 <= imm_j(opcode) < 0x10_0000,
        imm_j(opcode) % 2 == 0,
{
}

/// What the shifts and masks of the decoders select, in terms of the fields.
pub(crate) proof fn lemma_decode_bits(opcode: u32)
    by (bit_vector)
    ensures
        (opcode >> 7) & 0b1_1111 == opcode / 0x80 % 0x20,
        (opcode >> 15) & 0b1_1111 == opcode / 0x8000 % 0x20,
        (opcode >> 20) & 0b1_1111 == opcode / 0x10_0000 % 0x20,
        (opcode as i32) >> 20 == opcode / 0x10_0000 - (opcode / 0x8000_0000) * 0x1000,
        ((opcode as i32) >> 20) & !0x1Fi32 | ((opcode as i32) >> 7) & 0b1_1111 == (opcode
            / 0x200_0000) * 0x20 + opcode / 0x80 % 0x20 - (opcode / 0x8000_0000) * 0x1000,
        ((opcode as i32) >> 19) & !0xFFFi32 | ((opcode as i32) << 4) & 0x0800 | ((opcode as i32)
            >> 20) & 0x07E0 | ((opcode as i32) >> 7) & 0x001E == (opcode / 0x80 % 2) * 0x800 + (
        opcode / 0x200_0000 % 0x40) * 0x20 + (opcode / 0x100 % 0x10) * 2 - (opcode / 0x8000_0000)
            * 0x1000,
        (opcode as i32) & !0xFFFi32 == (opcode / 0x1000) * 0x1000 - (opcode / 0x8000_0000)
            * 0x1_0000_0000,
        ((opcode as i32) >> 11) & !0xF_FFFFi32 | (opcode as i32) & 0xF_F000 | ((opcode as i32) >> 9)
            & 0x0800 | ((opcode as i32) >> 20) & 0x7FE == (opcode / 0x1000 % 0x100) * 0x1000 + (
        opcode / 0x10_0000 % 2) * 0x800 + (opcode / 0x20_0000 % 0x400) * 2 - (opcode
            / 0x8000_0000) * 0x10_0000,
{
}

/// The opcode of the R format with the given fields. A field wider than
/// its place in the opcode loses its upper bits.
pub open spec fn encode_r(opcode: u8, rd: u8, funct3: u8, rs1: u8, rs2: u8, funct7: u8) -> u32 {
    ((funct7 % 0x80) * 0x200_0000 + (rs2 % 0x20) * 0x10_0000 + (rs1 % 0x20) * 0x8000 + (funct3 % 8)
        * 0x1000 + (rd % 0x20) * 0x80 + opcode % 0x80) as u32
}

/// The opcode of the I format: the low 12 bits of `imm` in bits 31 to 20.
pub open spec fn encode_i(opcode: u8, rd: u8, funct3: u8, rs1: u8, imm: u32) -> u32 {
    ((imm % 0x1000) * 0x10_0000 + (rs1 % 0x20) * 0x8000 + (funct3 % 8) * 0x1000 + (rd % 0x20)
        * 0x80 + opcode % 0x80) as u32
}

/// The opcode of the S format: bits 11 to 5 of `imm` in bits 31 to 25, its
/// bits 4 to 0 in bits 11 to 7.
pub open spec fn encode_s(opcode: u8, funct3: u8, rs1: u8, rs2: u8, imm: u32) -> u32 {
    ((imm / 0x20 % 0x80) * 0x200_0000 + (rs2 % 0x20) * 0x10_0000 + (rs1 % 0x20) * 0x8000 + (funct3
        % 8) * 0x1000 + (imm % 0x20) * 0x80 + opcode % 0x80) as u32
}

/// The opcode of the B format: bit 12 of `imm` in bit 31, its bits 10 to 5
/// in bits 30 to 25, its bits 4 to 1 in bits 11 to 8 and its bit 11 in bit 7.
pub open spec fn encode_b(opcode: u8, funct3: u8, rs1: u8, rs2: u8, imm: u32) -> u32 {
    ((imm / 0x1000 % 2) * 0x8000_0000 + (imm / 0x20 % 0x40) * 0x200_0000 + (rs2 % 0x20)
        * 0x10_0000 + (rs1 % 0x20) * 0x8000 + (funct3 % 8) * 0x1000 + (imm / 2 % 0x10) * 0x100 + (
    imm / 0x800 % 2) * 0x80 + opcode % 0x80) as u32
}

/// The opcode of the U format: bits 31 to 12 of `imm` in their own place.
pub open spec fn encode_u(opcode: u8, rd: u8, imm: u32) -> u32 {
    ((imm / 0x1000) * 0x1000 + (rd % 0x20) * 0x80 + opcode % 0x80) as u32
}

/// The opcode of the J format: bit 20 of `imm` in bit 31, its bits 10 to 1
/// in bits 30 to 21, its bit 11 in bit 20 and its bits 19 to 12 in their own
/// place.
pub open spec fn encode_j(opcode: u8, rd: u8, imm: u32) -> u32 {
    ((imm / 0x10_0000 % 2) * 0x8000_0000 + (imm / 2 % 0x400) * 0x20_0000 + (imm / 0x800 % 2)
        * 0x10_0000 + (imm / 0x1000 % 0x100) * 0x1000 + (rd % 0x20) * 0x80 + opcode % 0x80) as u32
}

/// What the shifts and masks of the encoders put together, in terms of the
/// fields.
pub(crate) proof fn lemma_encode_bits(opcode: u8, rd: u8, funct3: u8, rs1: u8, rs2: u8, funct7: u8, imm: u32)
    by (bit_vector)
    ensures
        ({
            &&& (funct7 as u32) << 25 & 0xFE00_0000 | (rs2 as u32) << 20 & 0x1F0_0000 | (rs1 as u32)
                << 15 & 0xF_8000 | (funct3 as u32) << 12 & 0x7000 | (rd as u32) << 7 & 0xF80 | (
            opcode as u32) & 0x7F == encode_r(opcode, rd, funct3, rs1, rs2, funct7)
            &&& imm << 20 & 0xFFF0_0000 | (rs1 as u32) << 15 & 0x000F_8000 | (funct3 as u32) << 12
                & 0x7000 | (rd as u32) << 7 & 0xF80 | (opcode as u32) & 0x7F == encode_i(
                opcode,
                rd,
                funct3,
                rs1,
                imm,
            )
            &&& imm << 20 & 0xFE00_0000 | (rs2 as u32) << 20 & 0x1F0_0000 | (rs1 as u32) << 15
                & 0xF_8000 | (funct3 as u32) << 12 & 0x7000 | imm << 7 & 0xF80 | (opcode as u32)
                & 0x7F == encode_s(opcode, funct3, rs1, rs2, imm)
            &&& imm << 19 & 0x8000_0000 | imm << 20 & 0x7E00_0000 | (rs2 as u32) << 20 & 0x1F0_0000
                | (rs1 as u32) << 15 & 0xF_8000 | (funct3 as u32) << 12 & 0x7000 | imm << 7 & 0xF00
                | imm >> 4 & 0x80 | (opcode as u32) & 0x7F == encode_b(
                opcode,
                funct3,
                rs1,
                rs2,
                imm,
            )
            &&& (imm & 0xFFFF_F000) | (rd as u32) << 7 & 0xF80 | (opcode as u32) & 0x7F == encode_u(
                opcode,
                rd,
                imm,
            )
            &&& (imm << 11 & 0x8000_0000) | (imm << 20 & 0x7FE0_0000) | (imm << 9 & 0x0010_0000) | (
            imm & 0x000F_F000) | (rd as u32) << 7 & 0x0F80 | (opcode as u32) & 0x7F == encode_j(
                opcode,
                rd,
                imm,
            )
        }),
{
}

/// The number from `-modulus / 2` up to, but not, `modulus / 2` that differs
/// from `v` by a multiple of `modulus`: `v` read as a signed number of as
/// many bits as `modulus` has values.
pub open spec fn signed(v: int, modulus: int) -> int {
    if v % modulus < modulus / 2 {
        v % modulus
    } else {
        v % modulus - modulus
    }
}

/// An immediate that fits its field, given to an encoder as an unsigned
/// word: the signed reading of the bits that the encoder keeps is the
/// immediate itself.
pub proof fn lemma_signed_fits(imm: i32)
    by (bit_vector)
    ensures
        ({
            let word = imm as u32;
            &&& -0x800 <= imm < 0x800 ==> signed(word as int, 0x1000) == imm
            &&& -0x1000 <= imm < 0x1000 && imm % 2 == 0 ==> signed(word - word % 2, 0x2000) == imm
            &&& imm % 0x1000 == 0 ==> signed(word - word % 0x1000, 0x1_0000_0000) == imm
            &&& -0x10_0000 <= imm < 0x10_0000 && imm % 2 == 0 ==> signed(word - word % 2, 0x20_0000)
                == imm
        }),
{
}

/// The fields of an opcode that `encode_r` made are the fields it was made
/// of, each cut to the width of its place. Read in the I format, `funct7`
/// and `rs2` make up the immediate.
pub proof fn lemma_fields_r(opcode: u8, rd: u8, funct3: u8, rs1: u8, rs2: u8, funct7: u8)
    by (bit_vector)
    ensures
        ({
            let word = encode_r(opcode, rd, funct3, rs1, rs2, funct7);
            &&& major(word) == opcode % 0x80
            &&& self::rd(word) == rd % 0x20
            &&& self::funct3(word) == funct3 % 8
            &&& self::rs1(word) == rs1 % 0x20
            &&& self::rs2(word) == rs2 % 0x20
            &&& self::funct7(word) == funct7 % 0x80
            &&& imm_i(word) == signed((funct7 % 0x80) * 0x20 + rs2 % 0x20, 0x1000)
        }),
{
}

/// The fields of an opcode that `encode_i` made.
pub proof fn lemma_fields_i(opcode: u8, rd: u8, funct3: u8, rs1: u8, imm: u32)
    by (bit_vector)
    ensures
        ({
            let word = encode_i(opcode, rd, funct3, rs1, imm);
            &&& major(word) == opcode % 0x80
            &&& self::rd(word) == rd % 0x20
            &&& self::funct3(word) == funct3 % 8
            &&& self::rs1(word) == rs1 % 0x20
            &&& self::funct7(word) == imm % 0x1000 / 0x20
            &&& self::funct6(word) == imm % 0x1000 / 0x40
            &&& imm_i(word) == signed(imm as int, 0x1000)
        }),
{
}

/// The fields of an opcode that `encode_s` made.
pub proof fn lemma_fields_s(opcode: u8, funct3: u8, rs1: u8, rs2: u8, imm: u32)
    by (bit_vector)
    ensures
        ({
            let word = encode_s(opcode, funct3, rs1, rs2, imm);
            &&& major(word) == opcode % 0x80
            &&& self::funct3(word) == funct3 % 8
            &&& self::rs1(word) == rs1 % 0x20
            &&& self::rs2(word) == rs2 % 0x20
            &&& imm_s(word) == signed(imm as int, 0x1000)
        }),
{
}

/// The fields of an opcode that `encode_b` made. The lowest bit of the
/// offset has no place in the opcode.
pub proof fn lemma_fields_b(opcode: u8, funct3: u8, rs1: u8, rs2: u8, imm: u32)
    by (bit_vector)
    ensures
        ({
            let word = encode_b(opcode, funct3, rs1, rs2, imm);
            &&& major(word) == opcode % 0x80
            &&& self::funct3(word) == funct3 % 8
            &&& self::rs1(word) == rs1 % 0x20
            &&& self::rs2(word) == rs2 % 0x20
            &&& imm_b(word) == signed(imm - imm % 2, 0x2000)
        }),
{
}

/// The fields of an opcode that `encode_u` made. The low 12 bits of the
/// immediate have no place in the opcode.
pub proof fn lemma_fields_u(opcode: u8, rd: u8, imm: u32)
    by (bit_vector)
    ensures
        ({
            let word = encode_u(opcode, rd, imm);
            &&& major(word) == opcode % 0x80
            &&& self::rd(word) == rd % 0x20
            &&& imm_u(word) == signed(imm - imm % 0x1000, 0x1_0000_0000)
        }),
{
}

/// The fields of an opcode that `encode_j` made. The lowest bit of the
/// offset has no place in the opcode.
pub proof fn lemma_fields_j(opcode: u8, rd: u8, imm: u32)
    by (bit_vector)
    ensures
        ({
            let word = encode_j(opcode, rd, imm);
            &&& major(word) == opcode % 0x80
            &&& self::rd(word) == rd % 0x20
            &&& imm_j(word) == signed(imm - imm % 2, 0x20_0000)
        }),
{
}

} // verus!
