//! Instruction assembler. Parameters are in the same order as in the mnemonic.
//!
//! Every function gives the opcode of one instruction. The opcode is
//! classified as the mnemonic it was assembled for, and the decoder of that
//! mnemonic reads the operands back: registers modulo 32, immediates cut to
//! the bits that the format holds ([`assembles`]).
use vstd::prelude::*;
use crate::common::decoder::{instruction_length, lemma_four_bytes};
use crate::common::fields::{
    encode_b,
    encode_i,
    encode_j,
    encode_r,
    encode_s,
    encode_u,
    lemma_fields_b,
    lemma_fields_i,
    lemma_fields_j,
    lemma_fields_r,
    lemma_fields_s,
    lemma_fields_u,
    lemma_imm_ranges,
    signed,
};
use crate::common::instruction::Instruction;
use crate::common::instruction32::Instruction32;
use crate::common::isa::{Isa, IsaEntry};

verus! {

/// `word` is an opcode of `isa` with the given operands: it is classified as
/// `isa`, the decoder of the slot of `isa` reads the operands from it, on a
/// hart of either width, and it is an instruction of 4 bytes.
pub open spec fn assembles(word: u32, isa: Isa, rd: u8, rs1: u8, rs2: u8, imm: int) -> bool {
    &&& Isa::classify(word) == isa
    &&& forall|pc: u64| #[trigger]
        IsaEntry::spec_of(isa).spec_decode(isa, pc, word) == (Instruction {
            inst: isa,
            pc,
            rd,
            rs1,
            rs2,
            imm: imm as i32,
        })
    &&& forall|pc: u32| #[trigger]
        IsaEntry::spec_of(isa).spec_decode32(isa, pc, word) == (Instruction32 {
            inst: isa,
            pc,
            rd,
            rs1,
            rs2,
            imm: imm as i32,
        })
    &&& -0x8000_0000 <= imm < 0x8000_0000
    &&& instruction_length(word as u16) == 4
}

/// The immediate of `FENCE`: the fence mode above the predecessor set above
/// the successor set, four bits each.
pub open spec fn fence_imm(succ: u8, pred: u8, fm: u8) -> u32 {
    ((fm % 0x10) * 0x100 + (pred % 0x10) * 0x10 + succ % 0x10) as u32
}

/// What the masks of the assembler select.
proof fn lemma_assembler_bits(shamt: u32, succ: u8, pred: u8, fm: u8)
    by (bit_vector)
    ensures
        ({
            &&& shamt & 0x3F == shamt % 0x40
            &&& 0x400u32 | (shamt & 0x3F) == 0x400 + shamt % 0x40
            &&& (fm as u32) << 8 & 0xF00 | (pred as u32) << 4 & 0xF0 | (succ as u32) & 0xF
                == fence_imm(succ, pred, fm)
        }),
{
}

// The base instructions of RV32I.
/// `add rd, rs1, rs2`.
pub fn ADD(rd: u8, rs1: u8, rs2: u8) -> (word: u32)
    ensures
        word == encode_r(0b0110011, rd, 0, rs1, rs2, 0),
        assembles(word, Isa::ADD, rd % 32, rs1 % 32, rs2 % 32, 0),
{
    proof {
        lemma_fields_r(0b0110011, rd, 0, rs1, rs2, 0);
        lemma_imm_ranges(encode_r(0b0110011, rd, 0, rs1, rs2, 0));
        lemma_four_bytes(encode_r(0b0110011, rd, 0, rs1, rs2, 0));
    }
    Instruction::encode_type_r(0b0110011, rd, 0, rs1, rs2, 0)
}

/// `addi rd, rs1, imm`.
pub fn ADDI(rd: u8, rs1: u8, imm: u32) -> (word: u32)
    ensures
        word == encode_i(0b0010011, rd, 0, rs1, imm),
        assembles(word, Isa::ADDI, rd % 32, rs1 % 32, 0, signed(imm as int, 0x1000)),
{
    proof {
        lemma_fields_i(0b0010011, rd, 0, rs1, imm);
        lemma_imm_ranges(encode_i(0b0010011, rd, 0, rs1, imm));
        lemma_four_bytes(encode_i(0b0010011, rd, 0, rs1, imm));
    }
    Instruction::encode_type_i(0b0010011, rd, 0, rs1, imm)
}

/// `and rd, rs1, rs2`.
pub fn AND(rd: u8, rs1: u8, rs2: u8) -> (word: u32)
    ensures
        word == encode_r(0b0110011, rd, 7, rs1, rs2, 0),
        assembles(word, Isa::AND, rd % 32, rs1 % 32, rs2 % 32, 0),
{
    proof {
        lemma_fields_r(0b0110011, rd, 7, rs1, rs2, 0);
        lemma_imm_ranges(encode_r(0b0110011, rd, 7, rs1, rs2, 0));
        lemma_four_bytes(encode_r(0b0110011, rd, 7, rs1, rs2, 0));
    }
    Instruction::encode_type_r(0b0110011, rd, 7, rs1, rs2, 0)
}

/// `andi rd, rs1, imm`.
pub fn ANDI(rd: u8, rs1: u8, imm: u32) -> (word: u32)
    ensures
        word == encode_i(0b0010011, rd, 7, rs1, imm),
        assembles(word, Isa::ANDI, rd % 32, rs1 % 32, 0, signed(imm as int, 0x1000)),
{
    proof {
        lemma_fields_i(0b0010011, rd, 7, rs1, imm);
        lemma_imm_ranges(encode_i(0b0010011, rd, 7, rs1, imm));
        lemma_four_bytes(encode_i(0b0010011, rd, 7, rs1, imm));
    }
    Instruction::encode_type_i(0b0010011, rd, 7, rs1, imm)
}

/// `auipc rd, imm`.
pub fn AUIPC(rd: u8, imm: u32) -> (word: u32)
    ensures
        word == encode_u(0b0010111, rd, imm),
        assembles(word, Isa::AUIPC, rd % 32, 0, 0, signed(imm - imm % 0x1000, 0x1_0000_0000)),
{
    proof {
        lemma_fields_u(0b0010111, rd, imm);
        lemma_imm_ranges(encode_u(0b0010111, rd, imm));
        lemma_four_bytes(encode_u(0b0010111, rd, imm));
    }
    Instruction::encode_type_u(0b0010111, rd, imm)
}

/// `beq rs1, rs2, imm`.
pub fn BEQ(rs1: u8, rs2: u8, imm: u32) -> (word: u32)
    ensures
        word == encode_b(0b1100011, 0, rs1, rs2, imm),
        assembles(word, Isa::BEQ, 0, rs1 % 32, rs2 % 32, signed(imm - imm % 2, 0x2000)),
{
    proof {
        lemma_fields_b(0b1100011, 0, rs1, rs2, imm);
        lemma_imm_ranges(encode_b(0b1100011, 0, rs1, rs2, imm));
        lemma_four_bytes(encode_b(0b1100011, 0, rs1, rs2, imm));
    }
    Instruction::encode_type_b(0b1100011, 0, rs1, rs2, imm)
}

/// `bge rs1, rs2, imm`.
pub fn BGE(rs1: u8, rs2: u8, imm: u32) -> (word: u32)
    ensures
        word == encode_b(0b1100011, 5, rs1, rs2, imm),
        assembles(word, Isa::BGE, 0, rs1 % 32, rs2 % 32, signed(imm - imm % 2, 0x2000)),
{
    proof {
        lemma_fields_b(0b1100011, 5, rs1, rs2, imm);
        lemma_imm_ranges(encode_b(0b1100011, 5, rs1, rs2, imm));
        lemma_four_bytes(encode_b(0b1100011, 5, rs1, rs2, imm));
    }
    Instruction::encode_type_b(0b1100011, 5, rs1, rs2, imm)
}

/// `bgeu rs1, rs2, imm`.
pub fn BGEU(rs1: u8, rs2: u8, imm: u32) -> (word: u32)
    ensures
        word == encode_b(0b1100011, 7, rs1, rs2, imm),
        assembles(word, Isa::BGEU, 0, rs1 % 32, rs2 % 32, signed(imm - imm % 2, 0x2000)),
{
    proof {
        lemma_fields_b(0b1100011, 7, rs1, rs2, imm);
        lemma_imm_ranges(encode_b(0b1100011, 7, rs1, rs2, imm));
        lemma_four_bytes(encode_b(0b1100011, 7, rs1, rs2, imm));
    }
    Instruction::encode_type_b(0b1100011, 7, rs1, rs2, imm)
}

/// `blt rs1, rs2, imm`.
pub fn BLT(rs1: u8, rs2: u8, imm: u32) -> (word: u32)
    ensures
        word == encode_b(0b1100011, 4, rs1, rs2, imm),
        assembles(word, Isa::BLT, 0, rs1 % 32, rs2 % 32, signed(imm - imm % 2, 0x2000)),
{
    proof {
        lemma_fields_b(0b1100011, 4, rs1, rs2, imm);
        lemma_imm_ranges(encode_b(0b1100011, 4, rs1, rs2, imm));
        lemma_four_bytes(encode_b(0b1100011, 4, rs1, rs2, imm));
    }
    Instruction::encode_type_b(0b1100011, 4, rs1, rs2, imm)
}

/// `bltu rs1, rs2, imm`.
pub fn BLTU(rs1: u8, rs2: u8, imm: u32) -> (word: u32)
    ensures
        word == encode_b(0b1100011, 6, rs1, rs2, imm),
        assembles(word, Isa::BLTU, 0, rs1 % 32, rs2 % 32, signed(imm - imm % 2, 0x2000)),
{
    proof {
        lemma_fields_b(0b1100011, 6, rs1, rs2, imm);
        lemma_imm_ranges(encode_b(0b1100011, 6, rs1, rs2, imm));
        lemma_four_bytes(encode_b(0b1100011, 6, rs1, rs2, imm));
    }
    Instruction::encode_type_b(0b1100011, 6, rs1, rs2, imm)
}

/// `bne rs1, rs2, imm`.
pub fn BNE(rs1: u8, rs2: u8, imm: u32) -> (word: u32)
    ensures
        word == encode_b(0b1100011, 1, rs1, rs2, imm),
        assembles(word, Isa::BNE, 0, rs1 % 32, rs2 % 32, signed(imm - imm % 2, 0x2000)),
{
    proof {
        lemma_fields_b(0b1100011, 1, rs1, rs2, imm);
        lemma_imm_ranges(encode_b(0b1100011, 1, rs1, rs2, imm));
        lemma_four_bytes(encode_b(0b1100011, 1, rs1, rs2, imm));
    }
    Instruction::encode_type_b(0b1100011, 1, rs1, rs2, imm)
}

/// `ebreak`.
pub fn EBREAK() -> (word: u32)
    ensures
        word == 0x0010_0073,
        assembles(word, Isa::EBREAK, 0, 0, 0, 0),
{
    proof {
        lemma_four_bytes(0x0010_0073);
    }
    0b000000000001_00000_000_00000_1110011
}

/// `ecall`.
pub fn ECALL() -> (word: u32)
    ensures
        word == 0x0000_0073,
        assembles(word, Isa::ECALL, 0, 0, 0, 0),
{
    proof {
        lemma_four_bytes(0x0000_0073);
    }
    0b000000000000_00000_000_00000_1110011
}

/// `fence`, with the successor set, the predecessor set and the fence mode
/// in the immediate.
pub fn FENCE(rd: u8, rs1: u8, succ: u8, pred: u8, fm: u8) -> (word: u32)
    ensures
        word == encode_i(0b0001111, rd, 0, rs1, fence_imm(succ, pred, fm)),
        assembles(
            word,
            Isa::FENCE,
            rd % 32,
            rs1 % 32,
            0,
            signed(fence_imm(succ, pred, fm) as int, 0x1000),
        ),
{
    proof {
        lemma_assembler_bits(0, succ, pred, fm);
        lemma_fields_i(0b0001111, rd, 0, rs1, fence_imm(succ, pred, fm));
        lemma_imm_ranges(encode_i(0b0001111, rd, 0, rs1, fence_imm(succ, pred, fm)));
        lemma_four_bytes(encode_i(0b0001111, rd, 0, rs1, fence_imm(succ, pred, fm)));
    }
    let imm = (fm as u32) << 8 & 0xF00 | (pred as u32) << 4 & 0xF0 | (succ as u32) & 0xF;
    Instruction::encode_type_i(0b0001111, rd, 0, rs1, imm)
}

/// `jal rd, imm`.
pub fn JAL(rd: u8, imm: u32) -> (word: u32)
    ensures
        word == encode_j(0b1101111, rd, imm),
        assembles(word, Isa::JAL, rd % 32, 0, 0, signed(imm - imm % 2, 0x20_0000)),
{
    proof {
        lemma_fields_j(0b1101111, rd, imm);
        lemma_imm_ranges(encode_j(0b1101111, rd, imm));
        lemma_four_bytes(encode_j(0b1101111, rd, imm));
    }
    Instruction::encode_type_j(0b1101111, rd, imm)
}

/// `jalr rd, imm(rs1)`.
pub fn JALR(rd: u8, rs1: u8, imm: u32) -> (word: u32)
    ensures
        word == encode_i(0b1100111, rd, 0, rs1, imm),
        assembles(word, Isa::JALR, rd % 32, rs1 % 32, 0, signed(imm as int, 0x1000)),
{
    proof {
        lemma_fields_i(0b1100111, rd, 0, rs1, imm);
        lemma_imm_ranges(encode_i(0b1100111, rd, 0, rs1, imm));
        lemma_four_bytes(encode_i(0b1100111, rd, 0, rs1, imm));
    }
    Instruction::encode_type_i(0b1100111, rd, 0, rs1, imm)
}

/// `lb rd, imm(rs1)`.
pub fn LB(rd: u8, rs1: u8, imm: u32) -> (word: u32)
    ensures
        word == encode_i(0b0000011, rd, 0, rs1, imm),
        assembles(word, Isa::LB, rd % 32, rs1 % 32, 0, signed(imm as int, 0x1000)),
{
    proof {
        lemma_fields_i(0b0000011, rd, 0, rs1, imm);
        lemma_imm_ranges(encode_i(0b0000011, rd, 0, rs1, imm));
        lemma_four_bytes(encode_i(0b0000011, rd, 0, rs1, imm));
    }
    Instruction::encode_type_i(0b0000011, rd, 0, rs1, imm)
}

/// `lbu rd, imm(rs1)`.
pub fn LBU(rd: u8, rs1: u8, imm: u32) -> (word: u32)
    ensures
        word == encode_i(0b0000011, rd, 4, rs1, imm),
        assembles(word, Isa::LBU, rd % 32, rs1 % 32, 0, signed(imm as int, 0x1000)),
{
    proof {
        lemma_fields_i(0b0000011, rd, 4, rs1, imm);
        lemma_imm_ranges(encode_i(0b0000011, rd, 4, rs1, imm));
        lemma_four_bytes(encode_i(0b0000011, rd, 4, rs1, imm));
    }
    Instruction::encode_type_i(0b0000011, rd, 4, rs1, imm)
}

/// `lh rd, imm(rs1)`.
pub fn LH(rd: u8, rs1: u8, imm: u32) -> (word: u32)
    ensures
        word == encode_i(0b0000011, rd, 1, rs1, imm),
        assembles(word, Isa::LH, rd % 32, rs1 % 32, 0, signed(imm as int, 0x1000)),
{
    proof {
        lemma_fields_i(0b0000011, rd, 1, rs1, imm);
        lemma_imm_ranges(encode_i(0b0000011, rd, 1, rs1, imm));
        lemma_four_bytes(encode_i(0b0000011, rd, 1, rs1, imm));
    }
    Instruction::encode_type_i(0b0000011, rd, 1, rs1, imm)
}

/// `lhu rd, imm(rs1)`.
pub fn LHU(rd: u8, rs1: u8, imm: u32) -> (word: u32)
    ensures
        word == encode_i(0b0000011, rd, 5, rs1, imm),
        assembles(word, Isa::LHU, rd % 32, rs1 % 32, 0, signed(imm as int, 0x1000)),
{
    proof {
        lemma_fields_i(0b0000011, rd, 5, rs1, imm);
        lemma_imm_ranges(encode_i(0b0000011, rd, 5, rs1, imm));
        lemma_four_bytes(encode_i(0b0000011, rd, 5, rs1, imm));
    }
    Instruction::encode_type_i(0b0000011, rd, 5, rs1, imm)
}

/// `lui rd, imm`.
pub fn LUI(rd: u8, imm: u32) -> (word: u32)
    ensures
        word == encode_u(0b0110111, rd, imm),
        assembles(word, Isa::LUI, rd % 32, 0, 0, signed(imm - imm % 0x1000, 0x1_0000_0000)),
{
    proof {
        lemma_fields_u(0b0110111, rd, imm);
        lemma_imm_ranges(encode_u(0b0110111, rd, imm));
        lemma_four_bytes(encode_u(0b0110111, rd, imm));
    }
    Instruction::encode_type_u(0b0110111, rd, imm)
}

/// `lw rd, imm(rs1)`.
pub fn LW(rd: u8, rs1: u8, imm: u32) -> (word: u32)
    ensures
        word == encode_i(0b0000011, rd, 2, rs1, imm),
        assembles(word, Isa::LW, rd % 32, rs1 % 32, 0, signed(imm as int, 0x1000)),
{
    proof {
        lemma_fields_i(0b0000011, rd, 2, rs1, imm);
        lemma_imm_ranges(encode_i(0b0000011, rd, 2, rs1, imm));
        lemma_four_bytes(encode_i(0b0000011, rd, 2, rs1, imm));
    }
    Instruction::encode_type_i(0b0000011, rd, 2, rs1, imm)
}

/// `or rd, rs1, rs2`.
pub fn OR(rd: u8, rs1: u8, rs2: u8) -> (word: u32)
    ensures
        word == encode_r(0b0110011, rd, 6, rs1, rs2, 0),
        assembles(word, Isa::OR, rd % 32, rs1 % 32, rs2 % 32, 0),
{
    proof {
        lemma_fields_r(0b0110011, rd, 6, rs1, rs2, 0);
        lemma_imm_ranges(encode_r(0b0110011, rd, 6, rs1, rs2, 0));
        lemma_four_bytes(encode_r(0b0110011, rd, 6, rs1, rs2, 0));
    }
    Instruction::encode_type_r(0b0110011, rd, 6, rs1, rs2, 0)
}

/// `ori rd, rs1, imm`.
pub fn ORI(rd: u8, rs1: u8, imm: u32) -> (word: u32)
    ensures
        word == encode_i(0b0010011, rd, 6, rs1, imm),
        assembles(word, Isa::ORI, rd % 32, rs1 % 32, 0, signed(imm as int, 0x1000)),
{
    proof {
        lemma_fields_i(0b0010011, rd, 6, rs1, imm);
        lemma_imm_ranges(encode_i(0b0010011, rd, 6, rs1, imm));
        lemma_four_bytes(encode_i(0b0010011, rd, 6, rs1, imm));
    }
    Instruction::encode_type_i(0b0010011, rd, 6, rs1, imm)
}

/// `sb rs2, imm(rs1)`.
pub fn SB(rs2: u8, rs1: u8, imm: u32) -> (word: u32)
    ensures
        word == encode_s(0b0100011, 0, rs1, rs2, imm),
        assembles(word, Isa::SB, 0, rs1 % 32, rs2 % 32, signed(imm as int, 0x1000)),
{
    proof {
        lemma_fields_s(0b0100011, 0, rs1, rs2, imm);
        lemma_imm_ranges(encode_s(0b0100011, 0, rs1, rs2, imm));
        lemma_four_bytes(encode_s(0b0100011, 0, rs1, rs2, imm));
    }
    Instruction::encode_type_s(0b0100011, 0, rs1, rs2, imm)
}

/// `sh rs2, imm(rs1)`.
pub fn SH(rs2: u8, rs1: u8, imm: u32) -> (word: u32)
    ensures
        word == encode_s(0b0100011, 1, rs1, rs2, imm),
        assembles(word, Isa::SH, 0, rs1 % 32, rs2 % 32, signed(imm as int, 0x1000)),
{
    proof {
        lemma_fields_s(0b0100011, 1, rs1, rs2, imm);
        lemma_imm_ranges(encode_s(0b0100011, 1, rs1, rs2, imm));
        lemma_four_bytes(encode_s(0b0100011, 1, rs1, rs2, imm));
    }
    Instruction::encode_type_s(0b0100011, 1, rs1, rs2, imm)
}

/// `sll rd, rs1, rs2`.
pub fn SLL(rd: u8, rs1: u8, rs2: u8) -> (word: u32)
    ensures
        word == encode_r(0b0110011, rd, 1, rs1, rs2, 0),
        assembles(word, Isa::SLL, rd % 32, rs1 % 32, rs2 % 32, 0),
{
    proof {
        lemma_fields_r(0b0110011, rd, 1, rs1, rs2, 0);
        lemma_imm_ranges(encode_r(0b0110011, rd, 1, rs1, rs2, 0));
        lemma_four_bytes(encode_r(0b0110011, rd, 1, rs1, rs2, 0));
    }
    Instruction::encode_type_r(0b0110011, rd, 1, rs1, rs2, 0)
}

/// `slli rd, rs1, shamt`.
pub fn SLLI(rd: u8, rs1: u8, shamt: u32) -> (word: u32)
    ensures
        word == encode_i(0b0010011, rd, 1, rs1, shamt % 0x40),
        assembles(word, Isa::SLLI, rd % 32, rs1 % 32, 0, (shamt % 0x40) as int),
{
    proof {
        lemma_assembler_bits(shamt, 0, 0, 0);
        lemma_fields_i(0b0010011, rd, 1, rs1, shamt % 0x40);
        lemma_imm_ranges(encode_i(0b0010011, rd, 1, rs1, shamt % 0x40));
        lemma_four_bytes(encode_i(0b0010011, rd, 1, rs1, shamt % 0x40));
    }
    Instruction::encode_type_i(0b0010011, rd, 1, rs1, shamt & 0x3F)
}

/// `slt rd, rs1, rs2`.
pub fn SLT(rd: u8, rs1: u8, rs2: u8) -> (word: u32)
    ensures
        word == encode_r(0b0110011, rd, 2, rs1, rs2, 0),
        assembles(word, Isa::SLT, rd % 32, rs1 % 32, rs2 % 32, 0),
{
    proof {
        lemma_fields_r(0b0110011, rd, 2, rs1, rs2, 0);
        lemma_imm_ranges(encode_r(0b0110011, rd, 2, rs1, rs2, 0));
        lemma_four_bytes(encode_r(0b0110011, rd, 2, rs1, rs2, 0));
    }
    Instruction::encode_type_r(0b0110011, rd, 2, rs1, rs2, 0)
}

/// `slti rd, rs1, imm`.
pub fn SLTI(rd: u8, rs1: u8, imm: u32) -> (word: u32)
    ensures
        word == encode_i(0b0010011, rd, 2, rs1, imm),
        assembles(word, Isa::SLTI, rd % 32, rs1 % 32, 0, signed(imm as int, 0x1000)),
{
    proof {
        lemma_fields_i(0b0010011, rd, 2, rs1, imm);
        lemma_imm_ranges(encode_i(0b0010011, rd, 2, rs1, imm));
        lemma_four_bytes(encode_i(0b0010011, rd, 2, rs1, imm));
    }
    Instruction::encode_type_i(0b0010011, rd, 2, rs1, imm)
}

/// `sltiu rd, rs1, imm`.
pub fn SLTIU(rd: u8, rs1: u8, imm: u32) -> (word: u32)
    ensures
        word == encode_i(0b0010011, rd, 3, rs1, imm),
        assembles(word, Isa::SLTIU, rd % 32, rs1 % 32, 0, signed(imm as int, 0x1000)),
{
    proof {
        lemma_fields_i(0b0010011, rd, 3, rs1, imm);
        lemma_imm_ranges(encode_i(0b0010011, rd, 3, rs1, imm));
        lemma_four_bytes(encode_i(0b0010011, rd, 3, rs1, imm));
    }
    Instruction::encode_type_i(0b0010011, rd, 3, rs1, imm)
}

/// `sltu rd, rs1, rs2`.
pub fn SLTU(rd: u8, rs1: u8, rs2: u8) -> (word: u32)
    ensures
        word == encode_r(0b0110011, rd, 3, rs1, rs2, 0),
        assembles(word, Isa::SLTU, rd % 32, rs1 % 32, rs2 % 32, 0),
{
    proof {
        lemma_fields_r(0b0110011, rd, 3, rs1, rs2, 0);
        lemma_imm_ranges(encode_r(0b0110011, rd, 3, rs1, rs2, 0));
        lemma_four_bytes(encode_r(0b0110011, rd, 3, rs1, rs2, 0));
    }
    Instruction::encode_type_r(0b0110011, rd, 3, rs1, rs2, 0)
}

/// `sra rd, rs1, rs2`.
pub fn SRA(rd: u8, rs1: u8, rs2: u8) -> (word: u32)
    ensures
        word == encode_r(0b0110011, rd, 5, rs1, rs2, 0b0100000),
        assembles(word, Isa::SRA, rd % 32, rs1 % 32, rs2 % 32, 0),
{
    proof {
        lemma_fields_r(0b0110011, rd, 5, rs1, rs2, 0b0100000);
        lemma_imm_ranges(encode_r(0b0110011, rd, 5, rs1, rs2, 0b0100000));
        lemma_four_bytes(encode_r(0b0110011, rd, 5, rs1, rs2, 0b0100000));
    }
    Instruction::encode_type_r(0b0110011, rd, 5, rs1, rs2, 0b0100000)
}

/// `srai rd, rs1, shamt`.
pub fn SRAI(rd: u8, rs1: u8, shamt: u32) -> (word: u32)
    ensures
        word == encode_i(0b0010011, rd, 5, rs1, (0x400 + shamt % 0x40) as u32),
        assembles(word, Isa::SRAI, rd % 32, rs1 % 32, 0, 0x400 + shamt % 0x40),
{
    proof {
        lemma_assembler_bits(shamt, 0, 0, 0);
        lemma_fields_i(0b0010011, rd, 5, rs1, (0x400 + shamt % 0x40) as u32);
        lemma_imm_ranges(encode_i(0b0010011, rd, 5, rs1, (0x400 + shamt % 0x40) as u32));
        lemma_four_bytes(encode_i(0b0010011, rd, 5, rs1, (0x400 + shamt % 0x40) as u32));
    }
    Instruction::encode_type_i(0b0010011, rd, 5, rs1, 0x400u32 | (shamt & 0x3F))
}

/// `srl rd, rs1, rs2`.
pub fn SRL(rd: u8, rs1: u8, rs2: u8) -> (word: u32)
    ensures
        word == encode_r(0b0110011, rd, 5, rs1, rs2, 0),
        assembles(word, Isa::SRL, rd % 32, rs1 % 32, rs2 % 32, 0),
{
    proof {
        lemma_fields_r(0b0110011, rd, 5, rs1, rs2, 0);
        lemma_imm_ranges(encode_r(0b0110011, rd, 5, rs1, rs2, 0));
        lemma_four_bytes(encode_r(0b0110011, rd, 5, rs1, rs2, 0));
    }
    Instruction::encode_type_r(0b0110011, rd, 5, rs1, rs2, 0)
}

/// `srli rd, rs1, shamt`.
pub fn SRLI(rd: u8, rs1: u8, shamt: u32) -> (word: u32)
    ensures
        word == encode_i(0b0010011, rd, 5, rs1, shamt % 0x40),
        assembles(word, Isa::SRLI, rd % 32, rs1 % 32, 0, (shamt % 0x40) as int),
{
    proof {
        lemma_assembler_bits(shamt, 0, 0, 0);
        lemma_fields_i(0b0010011, rd, 5, rs1, shamt % 0x40);
        lemma_imm_ranges(encode_i(0b0010011, rd, 5, rs1, shamt % 0x40));
        lemma_four_bytes(encode_i(0b0010011, rd, 5, rs1, shamt % 0x40));
    }
    Instruction::encode_type_i(0b0010011, rd, 5, rs1, shamt & 0x3F)
}

/// `sub rd, rs1, rs2`.
pub fn SUB(rd: u8, rs1: u8, rs2: u8) -> (word: u32)
    ensures
        word == encode_r(0b0110011, rd, 0, rs1, rs2, 0b0100000),
        assembles(word, Isa::SUB, rd % 32, rs1 % 32, rs2 % 32, 0),
{
    proof {
        lemma_fields_r(0b0110011, rd, 0, rs1, rs2, 0b0100000);
        lemma_imm_ranges(encode_r(0b0110011, rd, 0, rs1, rs2, 0b0100000));
        lemma_four_bytes(encode_r(0b0110011, rd, 0, rs1, rs2, 0b0100000));
    }
    Instruction::encode_type_r(0b0110011, rd, 0, rs1, rs2, 0b0100000)
}

/// `sw rs2, imm(rs1)`.
pub fn SW(rs2: u8, rs1: u8, imm: u32) -> (word: u32)
    ensures
        word == encode_s(0b0100011, 2, rs1, rs2, imm),
        assembles(word, Isa::SW, 0, rs1 % 32, rs2 % 32, signed(imm as int, 0x1000)),
{
    proof {
        lemma_fields_s(0b0100011, 2, rs1, rs2, imm);
        lemma_imm_ranges(encode_s(0b0100011, 2, rs1, rs2, imm));
        lemma_four_bytes(encode_s(0b0100011, 2, rs1, rs2, imm));
    }
    Instruction::encode_type_s(0b0100011, 2, rs1, rs2, imm)
}

/// `xor rd, rs1, rs2`.
pub fn XOR(rd: u8, rs1: u8, rs2: u8) -> (word: u32)
    ensures
        word == encode_r(0b0110011, rd, 4, rs1, rs2, 0),
        assembles(word, Isa::XOR, rd % 32, rs1 % 32, rs2 % 32, 0),
{
    proof {
        lemma_fields_r(0b0110011, rd, 4, rs1, rs2, 0);
        lemma_imm_ranges(encode_r(0b0110011, rd, 4, rs1, rs2, 0));
        lemma_four_bytes(encode_r(0b0110011, rd, 4, rs1, rs2, 0));
    }
    Instruction::encode_type_r(0b0110011, rd, 4, rs1, rs2, 0)
}

/// `xori rd, rs1, imm`.
pub fn XORI(rd: u8, rs1: u8, imm: u32) -> (word: u32)
    ensures
        word == encode_i(0b0010011, rd, 4, rs1, imm),
        assembles(word, Isa::XORI, rd % 32, rs1 % 32, 0, signed(imm as int, 0x1000)),
{
    proof {
        lemma_fields_i(0b0010011, rd, 4, rs1, imm);
        lemma_imm_ranges(encode_i(0b0010011, rd, 4, rs1, imm));
        lemma_four_bytes(encode_i(0b0010011, rd, 4, rs1, imm));
    }
    Instruction::encode_type_i(0b0010011, rd, 4, rs1, imm)
}

// The base instructions that RV64I adds.
/// `addiw rd, rs1, imm`.
pub fn ADDIW(rd: u8, rs1: u8, imm: u32) -> (word: u32)
    ensures
        word == encode_i(0b0011011, rd, 0, rs1, imm),
        assembles(word, Isa::ADDIW, rd % 32, rs1 % 32, 0, signed(imm as int, 0x1000)),
{
    proof {
        lemma_fields_i(0b0011011, rd, 0, rs1, imm);
        lemma_imm_ranges(encode_i(0b0011011, rd, 0, rs1, imm));
        lemma_four_bytes(encode_i(0b0011011, rd, 0, rs1, imm));
    }
    Instruction::encode_type_i(0b0011011, rd, 0, rs1, imm)
}

/// `addw rd, rs1, rs2`.
pub fn ADDW(rd: u8, rs1: u8, rs2: u8) -> (word: u32)
    ensures
        word == encode_r(0b0111011, rd, 0, rs1, rs2, 0),
        assembles(word, Isa::ADDW, rd % 32, rs1 % 32, rs2 % 32, 0),
{
    proof {
        lemma_fields_r(0b0111011, rd, 0, rs1, rs2, 0);
        lemma_imm_ranges(encode_r(0b0111011, rd, 0, rs1, rs2, 0));
        lemma_four_bytes(encode_r(0b0111011, rd, 0, rs1, rs2, 0));
    }
    Instruction::encode_type_r(0b0111011, rd, 0, rs1, rs2, 0)
}

/// `ld rd, imm(rs1)`.
pub fn LD(rd: u8, rs1: u8, imm: u32) -> (word: u32)
    ensures
        word == encode_i(0b0000011, rd, 3, rs1, imm),
        assembles(word, Isa::LD, rd % 32, rs1 % 32, 0, signed(imm as int, 0x1000)),
{
    proof {
        lemma_fields_i(0b0000011, rd, 3, rs1, imm);
        lemma_imm_ranges(encode_i(0b0000011, rd, 3, rs1, imm));
        lemma_four_bytes(encode_i(0b0000011, rd, 3, rs1, imm));
    }
    Instruction::encode_type_i(0b0000011, rd, 3, rs1, imm)
}

/// `lwu rd, imm(rs1)`.
pub fn LWU(rd: u8, rs1: u8, imm: u32) -> (word: u32)
    ensures
        word == encode_i(0b0000011, rd, 6, rs1, imm),
        assembles(word, Isa::LWU, rd % 32, rs1 % 32, 0, signed(imm as int, 0x1000)),
{
    proof {
        lemma_fields_i(0b0000011, rd, 6, rs1, imm);
        lemma_imm_ranges(encode_i(0b0000011, rd, 6, rs1, imm));
        lemma_four_bytes(encode_i(0b0000011, rd, 6, rs1, imm));
    }
    Instruction::encode_type_i(0b0000011, rd, 6, rs1, imm)
}

/// `sd rs2, imm(rs1)`.
///
/// The base register `rs1` is the first parameter.
pub fn SD(rs1: u8, rs2: u8, imm: u32) -> (word: u32)
    ensures
        word == encode_s(0b0100011, 3, rs1, rs2, imm),
        assembles(word, Isa::SD, 0, rs1 % 32, rs2 % 32, signed(imm as int, 0x1000)),
{
    proof {
        lemma_fields_s(0b0100011, 3, rs1, rs2, imm);
        lemma_imm_ranges(encode_s(0b0100011, 3, rs1, rs2, imm));
        lemma_four_bytes(encode_s(0b0100011, 3, rs1, rs2, imm));
    }
    Instruction::encode_type_s(0b0100011, 3, rs1, rs2, imm)
}

/// `slliw rd, rs1, shamt`.
pub fn SLLIW(rd: u8, rs1: u8, shamt: u8) -> (word: u32)
    ensures
        word == encode_r(0b0011011, rd, 1, rs1, shamt, 0),
        assembles(word, Isa::SLLIW, rd % 32, rs1 % 32, 0, (shamt % 32) as int),
{
    proof {
        lemma_fields_r(0b0011011, rd, 1, rs1, shamt, 0);
        lemma_imm_ranges(encode_r(0b0011011, rd, 1, rs1, shamt, 0));
        lemma_four_bytes(encode_r(0b0011011, rd, 1, rs1, shamt, 0));
    }
    Instruction::encode_type_r(0b0011011, rd, 1, rs1, shamt, 0)
}

/// `sllw rd, rs1, rs2`.
pub fn SLLW(rd: u8, rs1: u8, rs2: u8) -> (word: u32)
    ensures
        word == encode_r(0b0111011, rd, 1, rs1, rs2, 0),
        assembles(word, Isa::SLLW, rd % 32, rs1 % 32, rs2 % 32, 0),
{
    proof {
        lemma_fields_r(0b0111011, rd, 1, rs1, rs2, 0);
        lemma_imm_ranges(encode_r(0b0111011, rd, 1, rs1, rs2, 0));
        lemma_four_bytes(encode_r(0b0111011, rd, 1, rs1, rs2, 0));
    }
    Instruction::encode_type_r(0b0111011, rd, 1, rs1, rs2, 0)
}

/// `sraiw rd, rs1, shamt`.
pub fn SRAIW(rd: u8, rs1: u8, shamt: u8) -> (word: u32)
    ensures
        word == encode_r(0b0011011, rd, 5, rs1, shamt, 0b0100000),
        assembles(word, Isa::SRAIW, rd % 32, rs1 % 32, 0, 0x400 + shamt % 32),
{
    proof {
        lemma_fields_r(0b0011011, rd, 5, rs1, shamt, 0b0100000);
        lemma_imm_ranges(encode_r(0b0011011, rd, 5, rs1, shamt, 0b0100000));
        lemma_four_bytes(encode_r(0b0011011, rd, 5, rs1, shamt, 0b0100000));
    }
    Instruction::encode_type_r(0b0011011, rd, 5, rs1, shamt, 0b0100000)
}

/// `sraw rd, rs1, rs2`.
pub fn SRAW(rd: u8, rs1: u8, rs2: u8) -> (word: u32)
    ensures
        word == encode_r(0b0111011, rd, 5, rs1, rs2, 0b0100000),
        assembles(word, Isa::SRAW, rd % 32, rs1 % 32, rs2 % 32, 0),
{
    proof {
        lemma_fields_r(0b0111011, rd, 5, rs1, rs2, 0b0100000);
        lemma_imm_ranges(encode_r(0b0111011, rd, 5, rs1, rs2, 0b0100000));
        lemma_four_bytes(encode_r(0b0111011, rd, 5, rs1, rs2, 0b0100000));
    }
    Instruction::encode_type_r(0b0111011, rd, 5, rs1, rs2, 0b0100000)
}

/// `srliw rd, rs1, shamt`.
pub fn SRLIW(rd: u8, rs1: u8, shamt: u8) -> (word: u32)
    ensures
        word == encode_r(0b0011011, rd, 5, rs1, shamt, 0),
        assembles(word, Isa::SRLIW, rd % 32, rs1 % 32, 0, (shamt % 32) as int),
{
    proof {
        lemma_fields_r(0b0011011, rd, 5, rs1, shamt, 0);
        lemma_imm_ranges(encode_r(0b0011011, rd, 5, rs1, shamt, 0));
        lemma_four_bytes(encode_r(0b0011011, rd, 5, rs1, shamt, 0));
    }
    Instruction::encode_type_r(0b0011011, rd, 5, rs1, shamt, 0)
}

/// `srlw rd, rs1, rs2`.
pub fn SRLW(rd: u8, rs1: u8, rs2: u8) -> (word: u32)
    ensures
        word == encode_r(0b0111011, rd, 5, rs1, rs2, 0),
        assembles(word, Isa::SRLW, rd % 32, rs1 % 32, rs2 % 32, 0),
{
    proof {
        lemma_fields_r(0b0111011, rd, 5, rs1, rs2, 0);
        lemma_imm_ranges(encode_r(0b0111011, rd, 5, rs1, rs2, 0));
        lemma_four_bytes(encode_r(0b0111011, rd, 5, rs1, rs2, 0));
    }
    Instruction::encode_type_r(0b0111011, rd, 5, rs1, rs2, 0)
}

/// `subw rd, rs1, rs2`.
pub fn SUBW(rd: u8, rs1: u8, rs2: u8) -> (word: u32)
    ensures
        word == encode_r(0b0111011, rd, 0, rs1, rs2, 0b0100000),
        assembles(word, Isa::SUBW, rd % 32, rs1 % 32, rs2 % 32, 0),
{
    proof {
        lemma_fields_r(0b0111011, rd, 0, rs1, rs2, 0b0100000);
        lemma_imm_ranges(encode_r(0b0111011, rd, 0, rs1, rs2, 0b0100000));
        lemma_four_bytes(encode_r(0b0111011, rd, 0, rs1, rs2, 0b0100000));
    }
    Instruction::encode_type_r(0b0111011, rd, 0, rs1, rs2, 0b0100000)
}

// Multiplication and division.
/// `div rd, rs1, rs2`.
pub fn DIV(rd: u8, rs1: u8, rs2: u8) -> (word: u32)
    ensures
        word == encode_r(0b0110011, rd, 4, rs1, rs2, 0b0000001),
        assembles(word, Isa::DIV, rd % 32, rs1 % 32, rs2 % 32, 0),
{
    proof {
        lemma_fields_r(0b0110011, rd, 4, rs1, rs2, 0b0000001);
        lemma_imm_ranges(encode_r(0b0110011, rd, 4, rs1, rs2, 0b0000001));
        lemma_four_bytes(encode_r(0b0110011, rd, 4, rs1, rs2, 0b0000001));
    }
    Instruction::encode_type_r(0b0110011, rd, 4, rs1, rs2, 0b0000001)
}

/// `divu rd, rs1, rs2`.
pub fn DIVU(rd: u8, rs1: u8, rs2: u8) -> (word: u32)
    ensures
        word == encode_r(0b0110011, rd, 5, rs1, rs2, 0b0000001),
        assembles(word, Isa::DIVU, rd % 32, rs1 % 32, rs2 % 32, 0),
{
    proof {
        lemma_fields_r(0b0110011, rd, 5, rs1, rs2, 0b0000001);
        lemma_imm_ranges(encode_r(0b0110011, rd, 5, rs1, rs2, 0b0000001));
        lemma_four_bytes(encode_r(0b0110011, rd, 5, rs1, rs2, 0b0000001));
    }
    Instruction::encode_type_r(0b0110011, rd, 5, rs1, rs2, 0b0000001)
}

/// `mul rd, rs1, rs2`.
pub fn MUL(rd: u8, rs1: u8, rs2: u8) -> (word: u32)
    ensures
        word == encode_r(0b0110011, rd, 0, rs1, rs2, 0b0000001),
        assembles(word, Isa::MUL, rd % 32, rs1 % 32, rs2 % 32, 0),
{
    proof {
        lemma_fields_r(0b0110011, rd, 0, rs1, rs2, 0b0000001);
        lemma_imm_ranges(encode_r(0b0110011, rd, 0, rs1, rs2, 0b0000001));
        lemma_four_bytes(encode_r(0b0110011, rd, 0, rs1, rs2, 0b0000001));
    }
    Instruction::encode_type_r(0b0110011, rd, 0, rs1, rs2, 0b0000001)
}

/// `mulh rd, rs1, rs2`.
pub fn MULH(rd: u8, rs1: u8, rs2: u8) -> (word: u32)
    ensures
        word == encode_r(0b0110011, rd, 1, rs1, rs2, 0b0000001),
        assembles(word, Isa::MULH, rd % 32, rs1 % 32, rs2 % 32, 0),
{
    proof {
        lemma_fields_r(0b0110011, rd, 1, rs1, rs2, 0b0000001);
        lemma_imm_ranges(encode_r(0b0110011, rd, 1, rs1, rs2, 0b0000001));
        lemma_four_bytes(encode_r(0b0110011, rd, 1, rs1, rs2, 0b0000001));
    }
    Instruction::encode_type_r(0b0110011, rd, 1, rs1, rs2, 0b0000001)
}

/// `mulhsu rd, rs1, rs2`.
pub fn MULHSU(rd: u8, rs1: u8, rs2: u8) -> (word: u32)
    ensures
        word == encode_r(0b0110011, rd, 2, rs1, rs2, 0b0000001),
        assembles(word, Isa::MULHSU, rd % 32, rs1 % 32, rs2 % 32, 0),
{
    proof {
        lemma_fields_r(0b0110011, rd, 2, rs1, rs2, 0b0000001);
        lemma_imm_ranges(encode_r(0b0110011, rd, 2, rs1, rs2, 0b0000001));
        lemma_four_bytes(encode_r(0b0110011, rd, 2, rs1, rs2, 0b0000001));
    }
    Instruction::encode_type_r(0b0110011, rd, 2, rs1, rs2, 0b0000001)
}

/// `mulhu rd, rs1, rs2`.
pub fn MULHU(rd: u8, rs1: u8, rs2: u8) -> (word: u32)
    ensures
        word == encode_r(0b0110011, rd, 3, rs1, rs2, 0b0000001),
        assembles(word, Isa::MULHU, rd % 32, rs1 % 32, rs2 % 32, 0),
{
    proof {
        lemma_fields_r(0b0110011, rd, 3, rs1, rs2, 0b0000001);
        lemma_imm_ranges(encode_r(0b0110011, rd, 3, rs1, rs2, 0b0000001));
        lemma_four_bytes(encode_r(0b0110011, rd, 3, rs1, rs2, 0b0000001));
    }
    Instruction::encode_type_r(0b0110011, rd, 3, rs1, rs2, 0b0000001)
}

/// `rem rd, rs1, rs2`.
pub fn REM(rd: u8, rs1: u8, rs2: u8) -> (word: u32)
    ensures
        word == encode_r(0b0110011, rd, 6, rs1, rs2, 0b0000001),
        assembles(word, Isa::REM, rd % 32, rs1 % 32, rs2 % 32, 0),
{
    proof {
        lemma_fields_r(0b0110011, rd, 6, rs1, rs2, 0b0000001);
        lemma_imm_ranges(encode_r(0b0110011, rd, 6, rs1, rs2, 0b0000001));
        lemma_four_bytes(encode_r(0b0110011, rd, 6, rs1, rs2, 0b0000001));
    }
    Instruction::encode_type_r(0b0110011, rd, 6, rs1, rs2, 0b0000001)
}

/// `remu rd, rs1, rs2`.
pub fn REMU(rd: u8, rs1: u8, rs2: u8) -> (word: u32)
    ensures
        word == encode_r(0b0110011, rd, 7, rs1, rs2, 0b0000001),
        assembles(word, Isa::REMU, rd % 32, rs1 % 32, rs2 % 32, 0),
{
    proof {
        lemma_fields_r(0b0110011, rd, 7, rs1, rs2, 0b0000001);
        lemma_imm_ranges(encode_r(0b0110011, rd, 7, rs1, rs2, 0b0000001));
        lemma_four_bytes(encode_r(0b0110011, rd, 7, rs1, rs2, 0b0000001));
    }
    Instruction::encode_type_r(0b0110011, rd, 7, rs1, rs2, 0b0000001)
}

// Multiplication and division on words.
/// `divuw rd, rs1, rs2`.
pub fn DIVUW(rd: u8, rs1: u8, rs2: u8) -> (word: u32)
    ensures
        word == encode_r(0b0111011, rd, 5, rs1, rs2, 0b0000001),
        assembles(word, Isa::DIVUW, rd % 32, rs1 % 32, rs2 % 32, 0),
{
    proof {
        lemma_fields_r(0b0111011, rd, 5, rs1, rs2, 0b0000001);
        lemma_imm_ranges(encode_r(0b0111011, rd, 5, rs1, rs2, 0b0000001));
        lemma_four_bytes(encode_r(0b0111011, rd, 5, rs1, rs2, 0b0000001));
    }
    Instruction::encode_type_r(0b0111011, rd, 5, rs1, rs2, 0b0000001)
}

/// `divw rd, rs1, rs2`.
pub fn DIVW(rd: u8, rs1: u8, rs2: u8) -> (word: u32)
    ensures
        word == encode_r(0b0111011, rd, 4, rs1, rs2, 0b0000001),
        assembles(word, Isa::DIVW, rd % 32, rs1 % 32, rs2 % 32, 0),
{
    proof {
        lemma_fields_r(0b0111011, rd, 4, rs1, rs2, 0b0000001);
        lemma_imm_ranges(encode_r(0b0111011, rd, 4, rs1, rs2, 0b0000001));
        lemma_four_bytes(encode_r(0b0111011, rd, 4, rs1, rs2, 0b0000001));
    }
    Instruction::encode_type_r(0b0111011, rd, 4, rs1, rs2, 0b0000001)
}

/// `mulw rd, rs1, rs2`.
pub fn MULW(rd: u8, rs1: u8, rs2: u8) -> (word: u32)
    ensures
        word == encode_r(0b0111011, rd, 0, rs1, rs2, 0b0000001),
        assembles(word, Isa::MULW, rd % 32, rs1 % 32, rs2 % 32, 0),
{
    proof {
        lemma_fields_r(0b0111011, rd, 0, rs1, rs2, 0b0000001);
        lemma_imm_ranges(encode_r(0b0111011, rd, 0, rs1, rs2, 0b0000001));
        lemma_four_bytes(encode_r(0b0111011, rd, 0, rs1, rs2, 0b0000001));
    }
    Instruction::encode_type_r(0b0111011, rd, 0, rs1, rs2, 0b0000001)
}

/// `remuw rd, rs1, rs2`.
pub fn REMUW(rd: u8, rs1: u8, rs2: u8) -> (word: u32)
    ensures
        word == encode_r(0b0111011, rd, 7, rs1, rs2, 0b0000001),
        assembles(word, Isa::REMUW, rd % 32, rs1 % 32, rs2 % 32, 0),
{
    proof {
        lemma_fields_r(0b0111011, rd, 7, rs1, rs2, 0b0000001);
        lemma_imm_ranges(encode_r(0b0111011, rd, 7, rs1, rs2, 0b0000001));
        lemma_four_bytes(encode_r(0b0111011, rd, 7, rs1, rs2, 0b0000001));
    }
    Instruction::encode_type_r(0b0111011, rd, 7, rs1, rs2, 0b0000001)
}

/// `remw rd, rs1, rs2`.
pub fn REMW(rd: u8, rs1: u8, rs2: u8) -> (word: u32)
    ensures
        word == encode_r(0b0111011, rd, 6, rs1, rs2, 0b0000001),
        assembles(word, Isa::REMW, rd % 32, rs1 % 32, rs2 % 32, 0),
{
    proof {
        lemma_fields_r(0b0111011, rd, 6, rs1, rs2, 0b0000001);
        lemma_imm_ranges(encode_r(0b0111011, rd, 6, rs1, rs2, 0b0000001));
        lemma_four_bytes(encode_r(0b0111011, rd, 6, rs1, rs2, 0b0000001));
    }
    Instruction::encode_type_r(0b0111011, rd, 6, rs1, rs2, 0b0000001)
}

} // verus!
