//! The classifier: from a raw opcode to its mnemonic.
use vstd::prelude::*;
use crate::common::fields::{funct3, funct6, funct7, lemma_halfword, lemma_masks, major};
use crate::common::isa::Isa;

verus! {

/// The width in bytes of the instruction that starts with the halfword
/// `inst`, by the variable-length encoding of RISC-V:
///
/// | low bits of `inst`            | bytes       |
/// |-------------------------------|-------------|
/// | `aa`, `aa != 11`              | 2           |
/// | `bbb11`, `bbb != 111`         | 4           |
/// | `011111`                      | 6           |
/// | `0111111`                     | 8           |
/// | `1111111`, bits 14 to 12 `n`  | 10 + 2 * n  |
/// | `1111111`, bits 14 to 12 all 1| 24          |
///
/// The last line stands for every instruction of 192 bits or more.
pub open spec fn instruction_length(inst: u16) -> int {
    if inst % 4 != 3 {
        2
    } else if inst % 0x20 != 0x1F {
        4
    } else if inst % 0x40 == 0x1F {
        6
    } else if inst % 0x80 == 0x3F {
        8
    } else if inst / 0x1000 % 8 != 7 {
        10 + 2 * (inst / 0x1000 % 8)
    } else {
        24
    }
}

/// An opcode whose primary opcode ends in `11`, but not in `11111`, starts
/// an instruction of 4 bytes.
pub proof fn lemma_four_bytes(opcode: u32)
    requires
        major(opcode) % 4 == 3,
        major(opcode) % 0x20 != 0x1F,
    ensures
        instruction_length(opcode as u16) == 4,
{
    lemma_halfword(opcode);
}

/// Returns the width of the instruction word in bytes, 24 if greater than 192 bits.
pub fn get_instruction_length(inst: u16) -> (length: u16)
    ensures
        length == instruction_length(inst),
{
    assert({
        &&& inst & 0b11 == inst % 4
        &&& inst & 0b1_1111 == inst % 0x20
        &&& inst & 0b11_1111 == inst % 0x40
        &&& inst & 0b111_1111 == inst % 0x80
        &&& (inst >> 12) & 0b111 == inst / 0x1000 % 8
        &&& (inst >> 12) & 0b111 < 8
        &&& ((inst & 0b0111_0000_0111_1111) == 0b0111_0000_0111_1111 <==> inst % 0x80 == 0x7F && inst
            / 0x1000 % 8 == 7)
    }) by (bit_vector);
    if (inst & 0b11) != 0b11 {
        2
    } else if (inst & 0b1_1111) != 0b1_1111 {
        4
    } else if (inst & 0b11_1111) == 0b01_1111 {
        6
    } else if (inst & 0b111_1111) == 0b011_1111 {
        8
    } else if (inst & 0b0111_0000_0111_1111) != 0b0111_0000_0111_1111 {
        let nnn = (inst >> 12) & 0b111;
        10 + 2 * nnn
    } else {
        24
    }
}

impl Isa {
    /// Loads, by `funct3`.
    pub const I32_LOAD: [Isa; 8] = [
        Isa::LB,
        Isa::LH,
        Isa::LW,
        Isa::LD,
        Isa::LBU,
        Isa::LHU,
        Isa::LWU,
        Isa::UNKNOWN,
    ];

    /// Stores, by `funct3`.
    pub const I32_STORE: [Isa; 8] = [
        Isa::SB,
        Isa::SH,
        Isa::SW,
        Isa::SD,
        Isa::UNKNOWN,
        Isa::UNKNOWN,
        Isa::UNKNOWN,
        Isa::UNKNOWN,
    ];

    /// Branches, by `funct3`.
    pub const I32_BRANCH: [Isa; 8] = [
        Isa::BEQ,
        Isa::BNE,
        Isa::UNKNOWN,
        Isa::UNKNOWN,
        Isa::BLT,
        Isa::BGE,
        Isa::BLTU,
        Isa::BGEU,
    ];

    /// Operations on a register and an immediate, by `funct3`.
    pub const I32_IMMEDIATE: [Isa; 8] = [
        Isa::ADDI,
        Isa::SLLI,
        Isa::SLTI,
        Isa::SLTIU,
        Isa::XORI,
        Isa::SRLI,
        Isa::ORI,
        Isa::ANDI,
    ];

    /// Operations on two registers, by `funct3`, where `funct7` is zero.
    pub const I32_ARITHMETIC: [Isa; 8] = [
        Isa::ADD,
        Isa::SLL,
        Isa::SLT,
        Isa::SLTU,
        Isa::XOR,
        Isa::SRL,
        Isa::OR,
        Isa::AND,
    ];

    /// Operations on a word and an immediate, by `funct3`.
    pub const I64_IMMEDIATE: [Isa; 8] = [
        Isa::ADDIW,
        Isa::SLLIW,
        Isa::UNKNOWN,
        Isa::UNKNOWN,
        Isa::UNKNOWN,
        Isa::SRLIW,
        Isa::UNKNOWN,
        Isa::UNKNOWN,
    ];

    /// Operations on two words, by `funct3`, where `funct7` is zero.
    pub const I64_ARITHMETIC: [Isa; 8] = [
        Isa::ADDW,
        Isa::SLLW,
        Isa::UNKNOWN,
        Isa::UNKNOWN,
        Isa::UNKNOWN,
        Isa::SRLW,
        Isa::UNKNOWN,
        Isa::UNKNOWN,
    ];

    /// Multiplication and division, by `funct3`.
    pub const M32: [Isa; 8] = [
        Isa::MUL,
        Isa::MULH,
        Isa::MULHSU,
        Isa::MULHU,
        Isa::DIV,
        Isa::DIVU,
        Isa::REM,
        Isa::REMU,
    ];

    /// Multiplication and division on words, by `funct3`.
    pub const M64: [Isa; 8] = [
        Isa::MULW,
        Isa::UNKNOWN,
        Isa::UNKNOWN,
        Isa::UNKNOWN,
        Isa::DIVW,
        Isa::DIVUW,
        Isa::REMW,
        Isa::REMUW,
    ];

    /// The mnemonic of an opcode with primary opcode `OP-IMM`: `funct3`
    /// selects the operation, and among the right shifts `funct6` tells the
    /// arithmetic one from the logical one.
    pub open spec fn spec_immediate_32(opcode: u32) -> Isa {
        if funct3(opcode) == 0b101 && funct6(opcode) == 0b010000 {
            Isa::SRAI
        } else {
            Self::I32_IMMEDIATE[funct3(opcode)]
        }
    }

    /// The mnemonic of an opcode with primary opcode `OP-IMM-32`.
    pub open spec fn spec_immediate_64(opcode: u32) -> Isa {
        if funct3(opcode) == 0b101 && funct7(opcode) == 0b0100000 {
            Isa::SRAIW
        } else {
            Self::I64_IMMEDIATE[funct3(opcode)]
        }
    }

    /// The mnemonic of an opcode with primary opcode `OP`, multiplication and
    /// division apart: `funct7` tells `SUB` from `ADD` and `SRA` from `SRL`,
    /// and must be zero for every other operation.
    pub open spec fn spec_arithmetic_32(opcode: u32) -> Isa {
        if funct7(opcode) == 0b0100000 && funct3(opcode) == 0b000 {
            Isa::SUB
        } else if funct7(opcode) == 0b0100000 && funct3(opcode) == 0b101 {
            Isa::SRA
        } else if funct7(opcode) != 0 {
            Isa::UNKNOWN
        } else {
            Self::I32_ARITHMETIC[funct3(opcode)]
        }
    }

    /// The mnemonic of an opcode with primary opcode `OP-32`, multiplication
    /// and division apart.
    pub open spec fn spec_arithmetic_64(opcode: u32) -> Isa {
        if funct7(opcode) == 0b0100000 && funct3(opcode) == 0b000 {
            Isa::SUBW
        } else if funct7(opcode) == 0b0100000 && funct3(opcode) == 0b101 {
            Isa::SRAW
        } else if funct7(opcode) != 0 {
            Isa::UNKNOWN
        } else {
            Self::I64_ARITHMETIC[funct3(opcode)]
        }
    }

    /// The mnemonic of a 32-bit opcode: by its primary opcode first, then by
    /// `funct3` and `funct7`. Every opcode has one; an opcode that encodes no
    /// instruction has `UNKNOWN`.
    pub open spec fn classify(opcode: u32) -> Isa {
        let major = major(opcode);
        if major == 0b000_0011 {
            Self::I32_LOAD[funct3(opcode)]
        } else if major == 0b000_1111 {
            Isa::FENCE
        } else if major == 0b001_0011 {
            Self::spec_immediate_32(opcode)
        } else if major == 0b001_0111 {
            Isa::AUIPC
        } else if major == 0b001_1011 {
            Self::spec_immediate_64(opcode)
        } else if major == 0b010_0011 {
            Self::I32_STORE[funct3(opcode)]
        } else if major == 0b011_0011 {
            if funct7(opcode) == 0b0000001 {
                Self::M32[funct3(opcode)]
            } else {
                Self::spec_arithmetic_32(opcode)
            }
        } else if major == 0b011_0111 {
            Isa::LUI
        } else if major == 0b011_1011 {
            if funct7(opcode) == 0b0000001 {
                Self::M64[funct3(opcode)]
            } else {
                Self::spec_arithmetic_64(opcode)
            }
        } else if major == 0b110_0011 {
            Self::I32_BRANCH[funct3(opcode)]
        } else if major == 0b110_0111 {
            Isa::JALR
        } else if major == 0b110_1111 {
            Isa::JAL
        } else if opcode == 0x0000_0073 {
            Isa::ECALL
        } else if opcode == 0x0010_0073 {
            Isa::EBREAK
        } else {
            Isa::UNKNOWN
        }
    }

    /// Returns the Isa corresponding to the given 32-bits opcode.
    pub fn from_opcode_32(opcode: u32) -> (isa: Isa)
        ensures
            isa == Self::classify(opcode),
            isa != Isa::_SIZE,
    {
        proof {
            lemma_masks(opcode);
        }
        let funct3 = ((opcode >> 12) & 0b111) as usize;
        match opcode & 0b111_1111 {
            0b000_0011 => Self::I32_LOAD[funct3],
            0b000_1111 => Isa::FENCE,
            0b001_0011 => Self::immediate_32(opcode),
            0b001_0111 => Isa::AUIPC,
            0b001_1011 => Self::immediate_64(opcode),
            0b010_0011 => Self::I32_STORE[funct3],
            0b011_0011 => if opcode & 0xFE00_0000 == 0x0200_0000 {
                Self::M32[funct3]
            } else {
                Self::arithmetic_32(opcode)
            },
            0b011_0111 => Isa::LUI,
            0b011_1011 => if opcode & 0xFE00_0000 == 0x0200_0000 {
                Self::M64[funct3]
            } else {
                Self::arithmetic_64(opcode)
            },
            0b110_0011 => Self::I32_BRANCH[funct3],
            0b110_0111 => Isa::JALR,
            0b110_1111 => Isa::JAL,
            0b111_0011 => if opcode == 0x0000_0073 {
                Isa::ECALL
            } else if opcode == 0x0010_0073 {
                Isa::EBREAK
            } else {
                Isa::UNKNOWN
            },
            _ => Isa::UNKNOWN,
        }
    }

    fn immediate_32(opcode: u32) -> (isa: Isa)
        requires
            major(opcode) == 0b001_0011,
        ensures
            isa == Self::spec_immediate_32(opcode),
            isa != Isa::_SIZE,
    {
        proof {
            lemma_masks(opcode);
        }
        if opcode & 0xFC00_707F == 0x4000_5013 {
            Isa::SRAI
        } else {
            Self::I32_IMMEDIATE[((opcode >> 12) & 0b111) as usize]
        }
    }

    fn immediate_64(opcode: u32) -> (isa: Isa)
        requires
            major(opcode) == 0b001_1011,
        ensures
            isa == Self::spec_immediate_64(opcode),
            isa != Isa::_SIZE,
    {
        proof {
            lemma_masks(opcode);
        }
        if opcode & 0xFE00_707F == 0x4000_501B {
            Isa::SRAIW
        } else {
            Self::I64_IMMEDIATE[((opcode >> 12) & 0b111) as usize]
        }
    }

    fn arithmetic_32(opcode: u32) -> (isa: Isa)
        requires
            major(opcode) == 0b011_0011,
        ensures
            isa == Self::spec_arithmetic_32(opcode),
            isa != Isa::_SIZE,
    {
        proof {
            lemma_masks(opcode);
        }
        if opcode & 0xFE00_707F == 0x4000_0033 {
            Isa::SUB
        } else if opcode & 0xFE00_707F == 0x4000_5033 {
            Isa::SRA
        } else if opcode & 0xFE00_0000 != 0 {
            Isa::UNKNOWN
        } else {
            Self::I32_ARITHMETIC[((opcode >> 12) & 0b111) as usize]
        }
    }

    fn arithmetic_64(opcode: u32) -> (isa: Isa)
        requires
            major(opcode) == 0b011_1011,
        ensures
            isa == Self::spec_arithmetic_64(opcode),
            isa != Isa::_SIZE,
    {
        proof {
            lemma_masks(opcode);
        }
        if opcode & 0xFE00_707F == 0x4000_003B {
            Isa::SUBW
        } else if opcode & 0xFE00_707F == 0x4000_503B {
            Isa::SRAW
        } else if opcode & 0xFE00_0000 != 0 {
            Isa::UNKNOWN
        } else {
            Self::I64_ARITHMETIC[((opcode >> 12) & 0b111) as usize]
        }
    }
}

/// The mnemonic of an opcode depends on its primary opcode, `funct3` and
/// `funct7` alone, but for the primary opcode `SYSTEM`, where every bit
/// counts: two opcodes that agree in the three fields have one mnemonic.
pub proof fn lemma_classify_by_fields(a: u32, b: u32)
    requires
        major(a) == major(b),
        funct3(a) == funct3(b),
        funct7(a) == funct7(b),
        major(a) != 0b111_0011,
    ensures
        Isa::classify(a) == Isa::classify(b),
{
}

/// No opcode is classified as the sentinel that sizes the dispatch table.
pub proof fn lemma_classify_never_size(opcode: u32)
    ensures
        Isa::classify(opcode) != Isa::_SIZE,
{
}

} // verus!
