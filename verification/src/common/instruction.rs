//! The decoded instruction of a 64-bit hart, its decoders and its encoders.
use vstd::prelude::*;
use vstd::string::StringExecFns;
use crate::common::fields::{
    encode_b,
    encode_i,
    encode_j,
    encode_r,
    encode_s,
    encode_u,
    imm_b,
    imm_i,
    imm_j,
    imm_s,
    imm_u,
    lemma_decode_bits,
    lemma_encode_bits,
    lemma_fields_b,
    lemma_fields_i,
    lemma_fields_j,
    lemma_fields_r,
    lemma_fields_s,
    lemma_fields_u,
    lemma_imm_ranges,
    lemma_signed_fits,
};
use crate::common::isa::Isa;
use crate::common::text::{signed_decimal, signed_decimal_string};
use crate::common::{get_x_register_name, x_register_name};

verus! {

/// An instruction as a hart executes it: the mnemonic, the address it was
/// fetched from and its operands. An operand that the format of the
/// instruction does not have is zero.
#[derive(Clone, Copy, Debug, PartialEq, Eq, Structural)]
pub struct Instruction {
    /// The mnemonic.
    pub inst: Isa,
    /// The address of the instruction.
    pub pc: u64,
    /// The destination register.
    pub rd: u8,
    /// The first source register.
    pub rs1: u8,
    /// The second source register.
    pub rs2: u8,
    /// The immediate, sign-extended.
    pub imm: i32,
}

impl Instruction {
    /// Each register operand is a register number: it is less than 32.
    pub open spec fn wf(self) -> bool {
        self.rd < 32 && self.rs1 < 32 && self.rs2 < 32
    }

    /// The instruction without operands.
    pub open spec fn spec_empty(inst: Isa, pc: u64) -> Instruction {
        Instruction { inst, pc, rd: 0, rs1: 0, rs2: 0, imm: 0 }
    }

    /// The operands of an opcode in the R format.
    pub open spec fn spec_decode_type_r(inst: Isa, pc: u64, opcode: u32) -> Instruction {
        Instruction {
            inst,
            pc,
            rd: crate::common::fields::rd(opcode),
            rs1: crate::common::fields::rs1(opcode),
            rs2: crate::common::fields::rs2(opcode),
            imm: 0,
        }
    }

    /// The operands of an opcode in the I format.
    pub open spec fn spec_decode_type_i(inst: Isa, pc: u64, opcode: u32) -> Instruction {
        Instruction {
            inst,
            pc,
            rd: crate::common::fields::rd(opcode),
            rs1: crate::common::fields::rs1(opcode),
            rs2: 0,
            imm: imm_i(opcode) as i32,
        }
    }

    /// The operands of an opcode in the S format.
    pub open spec fn spec_decode_type_s(inst: Isa, pc: u64, opcode: u32) -> Instruction {
        Instruction {
            inst,
            pc,
            rd: 0,
            rs1: crate::common::fields::rs1(opcode),
            rs2: crate::common::fields::rs2(opcode),
            imm: imm_s(opcode) as i32,
        }
    }

    /// The operands of an opcode in the B format.
    pub open spec fn spec_decode_type_b(inst: Isa, pc: u64, opcode: u32) -> Instruction {
        Instruction {
            inst,
            pc,
            rd: 0,
            rs1: crate::common::fields::rs1(opcode),
            rs2: crate::common::fields::rs2(opcode),
            imm: imm_b(opcode) as i32,
        }
    }

    /// The operands of an opcode in the U format.
    pub open spec fn spec_decode_type_u(inst: Isa, pc: u64, opcode: u32) -> Instruction {
        Instruction {
            inst,
            pc,
            rd: crate::common::fields::rd(opcode),
            rs1: 0,
            rs2: 0,
            imm: imm_u(opcode) as i32,
        }
    }

    /// The operands of an opcode in the J format.
    pub open spec fn spec_decode_type_j(inst: Isa, pc: u64, opcode: u32) -> Instruction {
        Instruction {
            inst,
            pc,
            rd: crate::common::fields::rd(opcode),
            rs1: 0,
            rs2: 0,
            imm: imm_j(opcode) as i32,
        }
    }

    /// The instruction `inst` at `pc` without operands, whatever the opcode.
    pub fn empty(inst: Isa, pc: u64, _opcode: u32) -> (instruction: Self)
        ensures
            instruction == Self::spec_empty(inst, pc),
            instruction.wf(),
    {
        Self { inst, pc, rd: 0, rs1: 0, rs2: 0, imm: 0 }
    }

    /// Decodes an opcode in the R format.
    pub fn decode_type_r(inst: Isa, pc: u64, opcode: u32) -> (instruction: Self)
        ensures
            instruction == Self::spec_decode_type_r(inst, pc, opcode),
            instruction.wf(),
    {
        proof {
            lemma_decode_bits(opcode);
        }
        let rd = ((opcode >> 7) & 0b1_1111) as u8;
        let rs1 = ((opcode >> 15) & 0b1_1111) as u8;
        let rs2 = ((opcode >> 20) & 0b1_1111) as u8;
        Instruction { inst, pc, rd, rs1, rs2, imm: 0 }
    }

    /// Decodes an opcode in the I format.
    pub fn decode_type_i(inst: Isa, pc: u64, opcode: u32) -> (instruction: Self)
        ensures
            instruction == Self::spec_decode_type_i(inst, pc, opcode),
            instruction.wf(),
    {
        proof {
            lemma_decode_bits(opcode);
            lemma_imm_ranges(opcode);
        }
        let rd = ((opcode >> 7) & 0b1_1111) as u8;
        let rs1 = ((opcode >> 15) & 0b1_1111) as u8;
        let imm = (opcode as i32) >> 20;
        Instruction { inst, pc, rd, rs1, rs2: 0, imm }
    }

    /// Decodes an opcode in the S format.
    pub fn decode_type_s(inst: Isa, pc: u64, opcode: u32) -> (instruction: Self)
        ensures
            instruction == Self::spec_decode_type_s(inst, pc, opcode),
            instruction.wf(),
    {
        proof {
            lemma_decode_bits(opcode);
            lemma_imm_ranges(opcode);
        }
        let rs1 = ((opcode >> 15) & 0b1_1111) as u8;
        let rs2 = ((opcode >> 20) & 0b1_1111) as u8;
        let imm = ((opcode as i32) >> 20) & !0x1Fi32 | ((opcode as i32) >> 7) & 0b1_1111;
        Instruction { inst, pc, rd: 0, rs1, rs2, imm }
    }

    /// Decodes an opcode in the B format.
    pub fn decode_type_b(inst: Isa, pc: u64, opcode: u32) -> (instruction: Self)
        ensures
            instruction == Self::spec_decode_type_b(inst, pc, opcode),
            instruction.wf(),
    {
        proof {
            lemma_decode_bits(opcode);
            lemma_imm_ranges(opcode);
        }
        let rs1 = ((opcode >> 15) & 0b1_1111) as u8;
        let rs2 = ((opcode >> 20) & 0b1_1111) as u8;
        let imm = ((opcode as i32) >> 19) & !0xFFFi32 | ((opcode as i32) << 4) & 0x0800 | ((
        opcode as i32) >> 20) & 0x07E0 | ((opcode as i32) >> 7) & 0x001E;
        Instruction { inst, pc, rd: 0, rs1, rs2, imm }
    }

    /// Decodes an opcode in the U format.
    pub fn decode_type_u(inst: Isa, pc: u64, opcode: u32) -> (instruction: Self)
        ensures
            instruction == Self::spec_decode_type_u(inst, pc, opcode),
            instruction.wf(),
    {
        proof {
            lemma_decode_bits(opcode);
            lemma_imm_ranges(opcode);
        }
        let rd = ((opcode >> 7) & 0b1_1111) as u8;
        let imm = (opcode as i32) & !0xFFFi32;
        Instruction { inst, pc, rd, rs1: 0, rs2: 0, imm }
    }

    /// Decodes an opcode in the J format.
    pub fn decode_type_j(inst: Isa, pc: u64, opcode: u32) -> (instruction: Self)
        ensures
            instruction == Self::spec_decode_type_j(inst, pc, opcode),
            instruction.wf(),
    {
        proof {
            lemma_decode_bits(opcode);
            lemma_imm_ranges(opcode);
        }
        let rd = ((opcode >> 7) & 0b1_1111) as u8;
        let imm = ((opcode as i32) >> 11) & !0xF_FFFFi32 | (opcode as i32) & 0xF_F000 | ((
        opcode as i32) >> 9) & 0x0800 | ((opcode as i32) >> 20) & 0x7FE;
        Instruction { inst, pc, rd, rs1: 0, rs2: 0, imm }
    }

    /// Encodes an instruction of the R format.
    pub fn encode_type_r(opcode: u8, rd: u8, funct3: u8, rs1: u8, rs2: u8, funct7: u8) -> (word: u32)
        ensures
            word == encode_r(opcode, rd, funct3, rs1, rs2, funct7),
    {
        proof {
            lemma_encode_bits(opcode, rd, funct3, rs1, rs2, funct7, 0);
        }
        (funct7 as u32) << 25 & 0xFE00_0000 | (rs2 as u32) << 20 & 0x1F0_0000 | (rs1 as u32) << 15
            & 0xF_8000 | (funct3 as u32) << 12 & 0x7000 | (rd as u32) << 7 & 0xF80 | (opcode as u32)
            & 0x7F
    }

    /// Encodes an instruction of the I format.
    pub fn encode_type_i(opcode: u8, rd: u8, funct3: u8, rs1: u8, imm: u32) -> (word: u32)
        ensures
            word == encode_i(opcode, rd, funct3, rs1, imm),
    {
        proof {
            lemma_encode_bits(opcode, rd, funct3, rs1, 0, 0, imm);
        }
        imm << 20 & 0xFFF0_0000 | (rs1 as u32) << 15 & 0x000F_8000 | (funct3 as u32) << 12 & 0x7000
            | (rd as u32) << 7 & 0xF80 | (opcode as u32) & 0x7F
    }

    /// Encodes an instruction of the S format.
    pub fn encode_type_s(opcode: u8, funct3: u8, rs1: u8, rs2: u8, imm: u32) -> (word: u32)
        ensures
            word == encode_s(opcode, funct3, rs1, rs2, imm),
    {
        proof {
            lemma_encode_bits(opcode, 0, funct3, rs1, rs2, 0, imm);
        }
        imm << 20 & 0xFE00_0000 | (rs2 as u32) << 20 & 0x1F0_0000 | (rs1 as u32) << 15 & 0xF_8000 | (
        funct3 as u32) << 12 & 0x7000 | imm << 7 & 0xF80 | (opcode as u32) & 0x7F
    }

    /// Encodes an instruction of the B format.
    pub fn encode_type_b(opcode: u8, funct3: u8, rs1: u8, rs2: u8, imm: u32) -> (word: u32)
        ensures
            word == encode_b(opcode, funct3, rs1, rs2, imm),
    {
        proof {
            lemma_encode_bits(opcode, 0, funct3, rs1, rs2, 0, imm);
        }
        imm << 19 & 0x8000_0000 | imm << 20 & 0x7E00_0000 | (rs2 as u32) << 20 & 0x1F0_0000 | (
        rs1 as u32) << 15 & 0xF_8000 | (funct3 as u32) << 12 & 0x7000 | imm << 7 & 0xF00 | imm >> 4
            & 0x80 | (opcode as u32) & 0x7F
    }

    /// Encodes an instruction of the U format.
    pub fn encode_type_u(opcode: u8, rd: u8, imm: u32) -> (word: u32)
        ensures
            word == encode_u(opcode, rd, imm),
    {
        proof {
            lemma_encode_bits(opcode, rd, 0, 0, 0, 0, imm);
        }
        (imm & 0xFFFF_F000) | (rd as u32) << 7 & 0xF80 | (opcode as u32) & 0x7F
    }

    /// Encodes an instruction of the J format.
    pub fn encode_type_j(opcode: u8, rd: u8, imm: u32) -> (word: u32)
        ensures
            word == encode_j(opcode, rd, imm),
    {
        proof {
            lemma_encode_bits(opcode, rd, 0, 0, 0, 0, imm);
        }
        (imm << 11 & 0x8000_0000) | (imm << 20 & 0x7FE0_0000) | (imm << 9 & 0x0010_0000) | (imm
            & 0x000F_F000) | (rd as u32) << 7 & 0x0F80 | (opcode as u32) & 0x7F
    }

    /// The operands of the R format as text: `rd, rs1, rs2`.
    pub open spec fn spec_disassemble_type_r(self, abi_name: bool) -> Seq<char> {
        x_register_name(self.rd, abi_name) + ", "@ + x_register_name(self.rs1, abi_name) + ", "@
            + x_register_name(self.rs2, abi_name)
    }

    /// The operands of the I format as text: `rd, rs1, imm`.
    pub open spec fn spec_disassemble_type_i(self, abi_name: bool) -> Seq<char> {
        x_register_name(self.rd, abi_name) + ", "@ + x_register_name(self.rs1, abi_name) + ", "@
            + signed_decimal(self.imm as int)
    }

    /// The operands of the S format as text: `rs2, rs1, imm`.
    pub open spec fn spec_disassemble_type_s(self, abi_name: bool) -> Seq<char> {
        x_register_name(self.rs2, abi_name) + ", "@ + x_register_name(self.rs1, abi_name) + ", "@
            + signed_decimal(self.imm as int)
    }

    /// The operands of the B format as text: `rs1, rs2, imm`.
    pub open spec fn spec_disassemble_type_b(self, abi_name: bool) -> Seq<char> {
        x_register_name(self.rs1, abi_name) + ", "@ + x_register_name(self.rs2, abi_name) + ", "@
            + signed_decimal(self.imm as int)
    }

    /// The operands of the U and J formats as text: `rd, imm`.
    pub open spec fn spec_disassemble_type_u_j(self, abi_name: bool) -> Seq<char> {
        x_register_name(self.rd, abi_name) + ", "@ + signed_decimal(self.imm as int)
    }

    /// The operands of the R format as text.
    pub fn disassemble_type_r(self, abi_name: bool) -> (text: String)
        ensures
            text@ == self.spec_disassemble_type_r(abi_name),
    {
        let mut text = get_x_register_name(self.rd, abi_name);
        text.append(", ");
        text.append(get_x_register_name(self.rs1, abi_name).as_str());
        text.append(", ");
        text.append(get_x_register_name(self.rs2, abi_name).as_str());
        text
    }

    /// The operands of the I format as text.
    pub fn disassemble_type_i(self, abi_name: bool) -> (text: String)
        ensures
            text@ == self.spec_disassemble_type_i(abi_name),
    {
        let mut text = get_x_register_name(self.rd, abi_name);
        text.append(", ");
        text.append(get_x_register_name(self.rs1, abi_name).as_str());
        text.append(", ");
        text.append(signed_decimal_string(self.imm as i64).as_str());
        text
    }

    /// The operands of the S format as text.
    pub fn disassemble_type_s(self, abi_name: bool) -> (text: String)
        ensures
            text@ == self.spec_disassemble_type_s(abi_name),
    {
        let mut text = get_x_register_name(self.rs2, abi_name);
        text.append(", ");
        text.append(get_x_register_name(self.rs1, abi_name).as_str());
        text.append(", ");
        text.append(signed_decimal_string(self.imm as i64).as_str());
        text
    }

    /// The operands of the B format as text.
    pub fn disassemble_type_b(self, abi_name: bool) -> (text: String)
        ensures
            text@ == self.spec_disassemble_type_b(abi_name),
    {
        let mut text = get_x_register_name(self.rs1, abi_name);
        text.append(", ");
        text.append(get_x_register_name(self.rs2, abi_name).as_str());
        text.append(", ");
        text.append(signed_decimal_string(self.imm as i64).as_str());
        text
    }

    /// The operands of the U and J formats as text.
    pub fn disassemble_type_u_j(self, abi_name: bool) -> (text: String)
        ensures
            text@ == self.spec_disassemble_type_u_j(abi_name),
    {
        let mut text = get_x_register_name(self.rd, abi_name);
        text.append(", ");
        text.append(signed_decimal_string(self.imm as i64).as_str());
        text
    }
}

/// Decoding what `encode_type_r` encoded gives the registers back.
pub proof fn lemma_round_trip_r(
    inst: Isa,
    pc: u64,
    opcode: u8,
    rd: u8,
    funct3: u8,
    rs1: u8,
    rs2: u8,
    funct7: u8,
)
    requires
        rd < 32,
        rs1 < 32,
        rs2 < 32,
    ensures
        Instruction::spec_decode_type_r(inst, pc, encode_r(opcode, rd, funct3, rs1, rs2, funct7)) == (
        Instruction { inst, pc, rd, rs1, rs2, imm: 0 }),
{
    lemma_fields_r(opcode, rd, funct3, rs1, rs2, funct7);
}

/// Decoding what `encode_type_i` encoded gives the registers and the
/// immediate back, for every immediate of 12 bits.
pub proof fn lemma_round_trip_i(inst: Isa, pc: u64, opcode: u8, rd: u8, funct3: u8, rs1: u8, imm: i32)
    requires
        rd < 32,
        rs1 < 32,
        -0x800 <= imm < 0x800,
    ensures
        Instruction::spec_decode_type_i(inst, pc, encode_i(opcode, rd, funct3, rs1, imm as u32)) == (
        Instruction { inst, pc, rd, rs1, rs2: 0, imm }),
{
    lemma_signed_fits(imm);
    lemma_fields_i(opcode, rd, funct3, rs1, imm as u32);
}

/// Decoding what `encode_type_s` encoded gives the registers and the offset
/// back, for every offset of 12 bits.
pub proof fn lemma_round_trip_s(inst: Isa, pc: u64, opcode: u8, funct3: u8, rs1: u8, rs2: u8, imm: i32)
    requires
        rs1 < 32,
        rs2 < 32,
        -0x800 <= imm < 0x800,
    ensures
        Instruction::spec_decode_type_s(inst, pc, encode_s(opcode, funct3, rs1, rs2, imm as u32)) == (
        Instruction { inst, pc, rd: 0, rs1, rs2, imm }),
{
    lemma_signed_fits(imm);
    lemma_fields_s(opcode, funct3, rs1, rs2, imm as u32);
}

/// Decoding what `encode_type_b` encoded gives the registers and the offset
/// back, for every even offset of 13 bits.
pub proof fn lemma_round_trip_b(inst: Isa, pc: u64, opcode: u8, funct3: u8, rs1: u8, rs2: u8, imm: i32)
    requires
        rs1 < 32,
        rs2 < 32,
        -0x1000 <= imm < 0x1000,
        imm % 2 == 0,
    ensures
        Instruction::spec_decode_type_b(inst, pc, encode_b(opcode, funct3, rs1, rs2, imm as u32)) == (
        Instruction { inst, pc, rd: 0, rs1, rs2, imm }),
{
    lemma_signed_fits(imm);
    lemma_fields_b(opcode, funct3, rs1, rs2, imm as u32);
}

/// Decoding what `encode_type_u` encoded gives the register and the
/// immediate back, for every immediate whose low 12 bits are zero.
pub proof fn lemma_round_trip_u(inst: Isa, pc: u64, opcode: u8, rd: u8, imm: i32)
    requires
        rd < 32,
        imm % 0x1000 == 0,
    ensures
        Instruction::spec_decode_type_u(inst, pc, encode_u(opcode, rd, imm as u32)) == (Instruction {
            inst,
            pc,
            rd,
            rs1: 0,
            rs2: 0,
            imm,
        }),
{
    lemma_signed_fits(imm);
    lemma_fields_u(opcode, rd, imm as u32);
}

/// Decoding what `encode_type_j` encoded gives the register and the offset
/// back, for every even offset of 21 bits.
pub proof fn lemma_round_trip_j(inst: Isa, pc: u64, opcode: u8, rd: u8, imm: i32)
    requires
        rd < 32,
        -0x10_0000 <= imm < 0x10_0000,
        imm % 2 == 0,
    ensures
        Instruction::spec_decode_type_j(inst, pc, encode_j(opcode, rd, imm as u32)) == (Instruction {
            inst,
            pc,
            rd,
            rs1: 0,
            rs2: 0,
            imm,
        }),
{
    lemma_signed_fits(imm);
    lemma_fields_j(opcode, rd, imm as u32);
}

} // verus!
