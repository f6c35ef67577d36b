//! The disassembler: an instruction as a line of assembly.
use vstd::prelude::*;
use vstd::string::StringExecFns;
use crate::common::instruction::Instruction;
use crate::common::instruction32::Instruction32;
use crate::common::isa::{Isa, ISA_SIZE};
use crate::common::text::{decimal, decimal_string, signed_decimal, signed_decimal_string};
use crate::common::{get_x_register_name, x_register_name};
use crate::public::ExecutionEnvironmentInterface;
use crate::rvi::{RV32I, RV64I};

verus! {

/// How the operands of an instruction are written.
#[derive(Clone, Copy, Debug, PartialEq, Eq, Structural)]
pub enum Syntax {
    /// `rd, rs1, rs2`.
    R,
    /// `rd, rs1, imm`.
    I,
    /// `rs2, rs1, imm`.
    S,
    /// `rs1, rs2, imm`.
    B,
    /// `rd, imm`.
    UJ,
    /// `rd, rs1` and the low six bits of `imm`.
    Shift,
    /// `rd, rs1` and the low five bits of `imm`.
    ShiftWord,
    /// `rd, imm(rs1)`.
    Indirect,
    /// No operands.
    Bare,
    /// The fields of the instruction, as `Debug` writes them.
    Debug,
}

/// The name of a mnemonic, as it is declared.
pub open spec fn spec_name(isa: Isa) -> Seq<char> {
    match isa {
        Isa::UNKNOWN => "UNKNOWN"@,
        Isa::ADD => "ADD"@,
        Isa::ADDI => "ADDI"@,
        Isa::AND => "AND"@,
        Isa::ANDI => "ANDI"@,
        Isa::AUIPC => "AUIPC"@,
        Isa::BEQ => "BEQ"@,
        Isa::BGE => "BGE"@,
        Isa::BGEU => "BGEU"@,
        Isa::BLT => "BLT"@,
        Isa::BLTU => "BLTU"@,
        Isa::BNE => "BNE"@,
        Isa::EBREAK => "EBREAK"@,
        Isa::ECALL => "ECALL"@,
        Isa::FENCE => "FENCE"@,
        Isa::JAL => "JAL"@,
        Isa::JALR => "JALR"@,
        Isa::LB => "LB"@,
        Isa::LBU => "LBU"@,
        Isa::LH => "LH"@,
        Isa::LHU => "LHU"@,
        Isa::LUI => "LUI"@,
        Isa::LW => "LW"@,
        Isa::OR => "OR"@,
        Isa::ORI => "ORI"@,
        Isa::SB => "SB"@,
        Isa::SH => "SH"@,
        Isa::SLL => "SLL"@,
        Isa::SLLI => "SLLI"@,
        Isa::SLT => "SLT"@,
        Isa::SLTI => "SLTI"@,
        Isa::SLTIU => "SLTIU"@,
        Isa::SLTU => "SLTU"@,
        Isa::SRA => "SRA"@,
        Isa::SRAI => "SRAI"@,
        Isa::SRL => "SRL"@,
        Isa::SRLI => "SRLI"@,
        Isa::SUB => "SUB"@,
        Isa::SW => "SW"@,
        Isa::XOR => "XOR"@,
        Isa::XORI => "XORI"@,
        Isa::ADDIW => "ADDIW"@,
        Isa::ADDW => "ADDW"@,
        Isa::LD => "LD"@,
        Isa::LWU => "LWU"@,
        Isa::SD => "SD"@,
        Isa::SLLIW => "SLLIW"@,
        Isa::SLLW => "SLLW"@,
        Isa::SRAIW => "SRAIW"@,
        Isa::SRAW => "SRAW"@,
        Isa::SRLIW => "SRLIW"@,
        Isa::SRLW => "SRLW"@,
        Isa::SUBW => "SUBW"@,
        Isa::DIV => "DIV"@,
        Isa::DIVU => "DIVU"@,
        Isa::MUL => "MUL"@,
        Isa::MULH => "MULH"@,
        Isa::MULHSU => "MULHSU"@,
        Isa::MULHU => "MULHU"@,
        Isa::REM => "REM"@,
        Isa::REMU => "REMU"@,
        Isa::DIVUW => "DIVUW"@,
        Isa::DIVW => "DIVW"@,
        Isa::MULW => "MULW"@,
        Isa::REMUW => "REMUW"@,
        Isa::REMW => "REMW"@,
        Isa::_SIZE => "_SIZE"@,
    }
}

/// The mnemonic in assembly text.
pub open spec fn spec_mnemonic(isa: Isa) -> Seq<char> {
    match isa {
        Isa::UNKNOWN => "unknown"@,
        Isa::ADD => "add"@,
        Isa::ADDI => "addi"@,
        Isa::AND => "and"@,
        Isa::ANDI => "andi"@,
        Isa::AUIPC => "auipc"@,
        Isa::BEQ => "beq"@,
        Isa::BGE => "bge"@,
        Isa::BGEU => "bgeu"@,
        Isa::BLT => "blt"@,
        Isa::BLTU => "bltu"@,
        Isa::BNE => "bne"@,
        Isa::EBREAK => "ebreak"@,
        Isa::ECALL => "ecall"@,
        Isa::FENCE => "fence"@,
        Isa::JAL => "jal"@,
        Isa::JALR => "jalr"@,
        Isa::LB => "lb"@,
        Isa::LBU => "lbu"@,
        Isa::LH => "lh"@,
        Isa::LHU => "lhu"@,
        Isa::LUI => "lui"@,
        Isa::LW => "lw"@,
        Isa::OR => "or"@,
        Isa::ORI => "ori"@,
        Isa::SB => "sb"@,
        Isa::SH => "sh"@,
        Isa::SLL => "sll"@,
        Isa::SLLI => "slli"@,
        Isa::SLT => "slt"@,
        Isa::SLTI => "slti"@,
        Isa::SLTIU => "sltiu"@,
        Isa::SLTU => "sltu"@,
        Isa::SRA => "sra"@,
        Isa::SRAI => "srai"@,
        Isa::SRL => "srl"@,
        Isa::SRLI => "srli"@,
        Isa::SUB => "sub"@,
        Isa::SW => "sw"@,
        Isa::XOR => "xor"@,
        Isa::XORI => "xori"@,
        Isa::ADDIW => "addiw"@,
        Isa::ADDW => "addw"@,
        Isa::LD => "ld"@,
        Isa::LWU => "lwu"@,
        Isa::SD => "sd"@,
        Isa::SLLIW => "slliw"@,
        Isa::SLLW => "sllw"@,
        Isa::SRAIW => "sraiw"@,
        Isa::SRAW => "sraw"@,
        Isa::SRLIW => "srliw"@,
        Isa::SRLW => "srlw"@,
        Isa::SUBW => "subw"@,
        Isa::DIV => "div"@,
        Isa::DIVU => "divu"@,
        Isa::MUL => "mul"@,
        Isa::MULH => "mulh"@,
        Isa::MULHSU => "mulhsu"@,
        Isa::MULHU => "mulhu"@,
        Isa::REM => "rem"@,
        Isa::REMU => "remu"@,
        Isa::DIVUW => "divuw"@,
        Isa::DIVW => "divw"@,
        Isa::MULW => "mulw"@,
        Isa::REMUW => "remuw"@,
        Isa::REMW => "remw"@,
        Isa::_SIZE => "unknown"@,
    }
}

/// How the operands of each mnemonic are written.
pub open spec fn spec_syntax(isa: Isa) -> Syntax {
    match isa {
        Isa::ADD | Isa::AND | Isa::OR | Isa::SLL | Isa::SLT | Isa::SLTU | Isa::SRA
        | Isa::SRL | Isa::SUB | Isa::XOR | Isa::ADDW | Isa::SLLW | Isa::SRAW | Isa::SRLW
        | Isa::SUBW | Isa::DIV | Isa::DIVU | Isa::MUL | Isa::MULH | Isa::MULHSU | Isa::MULHU
        | Isa::REM | Isa::REMU | Isa::DIVUW | Isa::DIVW | Isa::MULW | Isa::REMUW | Isa::REMW => Syntax::R,
        Isa::ADDI | Isa::ANDI | Isa::LB | Isa::LBU | Isa::LH | Isa::LHU | Isa::LW | Isa::ORI
        | Isa::SLTI | Isa::SLTIU | Isa::XORI | Isa::ADDIW | Isa::LD | Isa::LWU => Syntax::I,
        Isa::SB | Isa::SH | Isa::SW | Isa::SD => Syntax::S,
        Isa::BEQ | Isa::BGE | Isa::BGEU | Isa::BLT | Isa::BLTU | Isa::BNE => Syntax::B,
        Isa::AUIPC | Isa::JAL | Isa::LUI => Syntax::UJ,
        Isa::SLLI | Isa::SRAI | Isa::SRLI => Syntax::Shift,
        Isa::SLLIW | Isa::SRAIW | Isa::SRLIW => Syntax::ShiftWord,
        Isa::JALR => Syntax::Indirect,
        Isa::EBREAK | Isa::ECALL => Syntax::Bare,
        Isa::UNKNOWN | Isa::FENCE | Isa::_SIZE => Syntax::Debug,
    }
}

/// The name of a mnemonic, as it is declared.
pub fn name(isa: Isa) -> (text: &'static str)
    ensures
        text@ == spec_name(isa),
{
    match isa {
        Isa::UNKNOWN => "UNKNOWN",
        Isa::ADD => "ADD",
        Isa::ADDI => "ADDI",
        Isa::AND => "AND",
        Isa::ANDI => "ANDI",
        Isa::AUIPC => "AUIPC",
        Isa::BEQ => "BEQ",
        Isa::BGE => "BGE",
        Isa::BGEU => "BGEU",
        Isa::BLT => "BLT",
        Isa::BLTU => "BLTU",
        Isa::BNE => "BNE",
        Isa::EBREAK => "EBREAK",
        Isa::ECALL => "ECALL",
        Isa::FENCE => "FENCE",
        Isa::JAL => "JAL",
        Isa::JALR => "JALR",
        Isa::LB => "LB",
        Isa::LBU => "LBU",
        Isa::LH => "LH",
        Isa::LHU => "LHU",
        Isa::LUI => "LUI",
        Isa::LW => "LW",
        Isa::OR => "OR",
        Isa::ORI => "ORI",
        Isa::SB => "SB",
        Isa::SH => "SH",
        Isa::SLL => "SLL",
        Isa::SLLI => "SLLI",
        Isa::SLT => "SLT",
        Isa::SLTI => "SLTI",
        Isa::SLTIU => "SLTIU",
        Isa::SLTU => "SLTU",
        Isa::SRA => "SRA",
        Isa::SRAI => "SRAI",
        Isa::SRL => "SRL",
        Isa::SRLI => "SRLI",
        Isa::SUB => "SUB",
        Isa::SW => "SW",
        Isa::XOR => "XOR",
        Isa::XORI => "XORI",
        Isa::ADDIW => "ADDIW",
        Isa::ADDW => "ADDW",
        Isa::LD => "LD",
        Isa::LWU => "LWU",
        Isa::SD => "SD",
        Isa::SLLIW => "SLLIW",
        Isa::SLLW => "SLLW",
        Isa::SRAIW => "SRAIW",
        Isa::SRAW => "SRAW",
        Isa::SRLIW => "SRLIW",
        Isa::SRLW => "SRLW",
        Isa::SUBW => "SUBW",
        Isa::DIV => "DIV",
        Isa::DIVU => "DIVU",
        Isa::MUL => "MUL",
        Isa::MULH => "MULH",
        Isa::MULHSU => "MULHSU",
        Isa::MULHU => "MULHU",
        Isa::REM => "REM",
        Isa::REMU => "REMU",
        Isa::DIVUW => "DIVUW",
        Isa::DIVW => "DIVW",
        Isa::MULW => "MULW",
        Isa::REMUW => "REMUW",
        Isa::REMW => "REMW",
        Isa::_SIZE => "_SIZE",
    }
}

/// The mnemonic in assembly text.
pub fn mnemonic(isa: Isa) -> (text: &'static str)
    ensures
        text@ == spec_mnemonic(isa),
{
    match isa {
        Isa::UNKNOWN => "unknown",
        Isa::ADD => "add",
        Isa::ADDI => "addi",
        Isa::AND => "and",
        Isa::ANDI => "andi",
        Isa::AUIPC => "auipc",
        Isa::BEQ => "beq",
        Isa::BGE => "bge",
        Isa::BGEU => "bgeu",
        Isa::BLT => "blt",
        Isa::BLTU => "bltu",
        Isa::BNE => "bne",
        Isa::EBREAK => "ebreak",
        Isa::ECALL => "ecall",
        Isa::FENCE => "fence",
        Isa::JAL => "jal",
        Isa::JALR => "jalr",
        Isa::LB => "lb",
        Isa::LBU => "lbu",
        Isa::LH => "lh",
        Isa::LHU => "lhu",
        Isa::LUI => "lui",
        Isa::LW => "lw",
        Isa::OR => "or",
        Isa::ORI => "ori",
        Isa::SB => "sb",
        Isa::SH => "sh",
        Isa::SLL => "sll",
        Isa::SLLI => "slli",
        Isa::SLT => "slt",
        Isa::SLTI => "slti",
        Isa::SLTIU => "sltiu",
        Isa::SLTU => "sltu",
        Isa::SRA => "sra",
        Isa::SRAI => "srai",
        Isa::SRL => "srl",
        Isa::SRLI => "srli",
        Isa::SUB => "sub",
        Isa::SW => "sw",
        Isa::XOR => "xor",
        Isa::XORI => "xori",
        Isa::ADDIW => "addiw",
        Isa::ADDW => "addw",
        Isa::LD => "ld",
        Isa::LWU => "lwu",
        Isa::SD => "sd",
        Isa::SLLIW => "slliw",
        Isa::SLLW => "sllw",
        Isa::SRAIW => "sraiw",
        Isa::SRAW => "sraw",
        Isa::SRLIW => "srliw",
        Isa::SRLW => "srlw",
        Isa::SUBW => "subw",
        Isa::DIV => "div",
        Isa::DIVU => "divu",
        Isa::MUL => "mul",
        Isa::MULH => "mulh",
        Isa::MULHSU => "mulhsu",
        Isa::MULHU => "mulhu",
        Isa::REM => "rem",
        Isa::REMU => "remu",
        Isa::DIVUW => "divuw",
        Isa::DIVW => "divw",
        Isa::MULW => "mulw",
        Isa::REMUW => "remuw",
        Isa::REMW => "remw",
        Isa::_SIZE => "unknown",
    }
}

/// How the operands of each mnemonic are written.
#[verifier::when_used_as_spec(spec_syntax)]
pub fn syntax(isa: Isa) -> (syntax: Syntax)
    ensures
        syntax == spec_syntax(isa),
{
    match isa {
        Isa::ADD | Isa::AND | Isa::OR | Isa::SLL | Isa::SLT | Isa::SLTU | Isa::SRA
        | Isa::SRL | Isa::SUB | Isa::XOR | Isa::ADDW | Isa::SLLW | Isa::SRAW | Isa::SRLW
        | Isa::SUBW | Isa::DIV | Isa::DIVU | Isa::MUL | Isa::MULH | Isa::MULHSU | Isa::MULHU
        | Isa::REM | Isa::REMU | Isa::DIVUW | Isa::DIVW | Isa::MULW | Isa::REMUW | Isa::REMW => Syntax::R,
        Isa::ADDI | Isa::ANDI | Isa::LB | Isa::LBU | Isa::LH | Isa::LHU | Isa::LW | Isa::ORI
        | Isa::SLTI | Isa::SLTIU | Isa::XORI | Isa::ADDIW | Isa::LD | Isa::LWU => Syntax::I,
        Isa::SB | Isa::SH | Isa::SW | Isa::SD => Syntax::S,
        Isa::BEQ | Isa::BGE | Isa::BGEU | Isa::BLT | Isa::BLTU | Isa::BNE => Syntax::B,
        Isa::AUIPC | Isa::JAL | Isa::LUI => Syntax::UJ,
        Isa::SLLI | Isa::SRAI | Isa::SRLI => Syntax::Shift,
        Isa::SLLIW | Isa::SRAIW | Isa::SRLIW => Syntax::ShiftWord,
        Isa::JALR => Syntax::Indirect,
        Isa::EBREAK | Isa::ECALL => Syntax::Bare,
        Isa::UNKNOWN | Isa::FENCE | Isa::_SIZE => Syntax::Debug,
    }
}

impl Instruction {
    /// The instruction as the derived `Debug` writes it: the name of the
    /// type, then every field with its value.
    pub open spec fn spec_debug(self) -> Seq<char> {
        "Instruction { inst: "@ + spec_name(self.inst) + ", pc: "@ + decimal(self.pc as nat) + ", rd: "@
            + decimal(self.rd as nat) + ", rs1: "@ + decimal(self.rs1 as nat) + ", rs2: "@ + decimal(
            self.rs2 as nat,
        ) + ", imm: "@ + signed_decimal(self.imm as int) + " }"@
    }

    /// The instruction in assembly, written as the mnemonic `isa`: the
    /// mnemonic in lower case, then the operands in the order of the
    /// assembly syntax. For `FENCE` the fields follow the mnemonic, and what
    /// is no instruction is written as `Unknown instruction` with its fields.
    pub open spec fn spec_disassemble(self, isa: Isa, abi_name: bool) -> Seq<char> {
        let rd = x_register_name(self.rd, abi_name);
        let rs1 = x_register_name(self.rs1, abi_name);
        match spec_syntax(isa) {
            Syntax::R => spec_mnemonic(isa) + " "@ + self.spec_disassemble_type_r(abi_name),
            Syntax::I => spec_mnemonic(isa) + " "@ + self.spec_disassemble_type_i(abi_name),
            Syntax::S => spec_mnemonic(isa) + " "@ + self.spec_disassemble_type_s(abi_name),
            Syntax::B => spec_mnemonic(isa) + " "@ + self.spec_disassemble_type_b(abi_name),
            Syntax::UJ => spec_mnemonic(isa) + " "@ + self.spec_disassemble_type_u_j(abi_name),
            Syntax::Shift => spec_mnemonic(isa) + " "@ + rd + ", "@ + rs1 + ", "@ + signed_decimal(
                (self.imm & 0x3F) as int,
            ),
            Syntax::ShiftWord => spec_mnemonic(isa) + " "@ + rd + ", "@ + rs1 + ", "@
                + signed_decimal((self.imm & 0x1F) as int),
            Syntax::Indirect => spec_mnemonic(isa) + " "@ + rd + ", "@ + signed_decimal(
                self.imm as int,
            ) + "("@ + rs1 + ")"@,
            Syntax::Bare => spec_mnemonic(isa),
            Syntax::Debug => if isa == Isa::FENCE {
                "fence "@ + self.spec_debug()
            } else {
                "Unknown instruction "@ + self.spec_debug()
            },
        }
    }

    /// The instruction as the derived `Debug` writes it.
    pub fn debug(self) -> (text: String)
        ensures
            text@ == self.spec_debug(),
    {
        let mut text = String::from_str("Instruction { inst: ");
        text.append(name(self.inst));
        text.append(", pc: ");
        text.append(decimal_string(self.pc).as_str());
        text.append(", rd: ");
        text.append(decimal_string(self.rd as u64).as_str());
        text.append(", rs1: ");
        text.append(decimal_string(self.rs1 as u64).as_str());
        text.append(", rs2: ");
        text.append(decimal_string(self.rs2 as u64).as_str());
        text.append(", imm: ");
        text.append(signed_decimal_string(self.imm as i64).as_str());
        text.append(" }");
        text
    }

    /// The instruction in assembly, written as the mnemonic `isa`.
    pub fn disassemble(self, isa: Isa, abi_name: bool) -> (text: String)
        ensures
            text@ == self.spec_disassemble(isa, abi_name),
    {
        let kind = syntax(isa);
        if kind == Syntax::Debug {
            let mut text = String::from_str(
                if isa == Isa::FENCE {
                    "fence "
                } else {
                    "Unknown instruction "
                },
            );
            text.append(self.debug().as_str());
            return text;
        }
        let mut text = String::from_str(mnemonic(isa));
        if kind == Syntax::Bare {
            return text;
        }
        text.append(" ");
        match kind {
            Syntax::R => text.append(self.disassemble_type_r(abi_name).as_str()),
            Syntax::I => text.append(self.disassemble_type_i(abi_name).as_str()),
            Syntax::S => text.append(self.disassemble_type_s(abi_name).as_str()),
            Syntax::B => text.append(self.disassemble_type_b(abi_name).as_str()),
            Syntax::UJ => text.append(self.disassemble_type_u_j(abi_name).as_str()),
            Syntax::Indirect => {
                text.append(get_x_register_name(self.rd, abi_name).as_str());
                text.append(", ");
                text.append(signed_decimal_string(self.imm as i64).as_str());
                text.append("(");
                text.append(get_x_register_name(self.rs1, abi_name).as_str());
                text.append(")");
            },
            _ => {
                let amount = if kind == Syntax::Shift {
                    self.imm & 0x3F
                } else {
                    self.imm & 0x1F
                };
                text.append(get_x_register_name(self.rd, abi_name).as_str());
                text.append(", ");
                text.append(get_x_register_name(self.rs1, abi_name).as_str());
                text.append(", ");
                text.append(signed_decimal_string(amount as i64).as_str());
            },
        }
        text
    }
}

impl Instruction32 {
    /// The instruction as the derived `Debug` writes it: the name of the
    /// type, then every field with its value.
    pub open spec fn spec_debug(self) -> Seq<char> {
        "Instruction32 { inst: "@ + spec_name(self.inst) + ", pc: "@ + decimal(self.pc as nat) + ", rd: "@
            + decimal(self.rd as nat) + ", rs1: "@ + decimal(self.rs1 as nat) + ", rs2: "@ + decimal(
            self.rs2 as nat,
        ) + ", imm: "@ + signed_decimal(self.imm as int) + " }"@
    }

    /// The instruction in assembly, written as the mnemonic `isa`: the
    /// mnemonic in lower case, then the operands in the order of the
    /// assembly syntax. For `FENCE` the fields follow the mnemonic, and what
    /// is no instruction is written as `Unknown instruction` with its fields.
    pub open spec fn spec_disassemble(self, isa: Isa, abi_name: bool) -> Seq<char> {
        let rd = x_register_name(self.rd, abi_name);
        let rs1 = x_register_name(self.rs1, abi_name);
        match spec_syntax(isa) {
            Syntax::R => spec_mnemonic(isa) + " "@ + self.spec_disassemble_type_r(abi_name),
            Syntax::I => spec_mnemonic(isa) + " "@ + self.spec_disassemble_type_i(abi_name),
            Syntax::S => spec_mnemonic(isa) + " "@ + self.spec_disassemble_type_s(abi_name),
            Syntax::B => spec_mnemonic(isa) + " "@ + self.spec_disassemble_type_b(abi_name),
            Syntax::UJ => spec_mnemonic(isa) + " "@ + self.spec_disassemble_type_u_j(abi_name),
            Syntax::Shift => spec_mnemonic(isa) + " "@ + rd + ", "@ + rs1 + ", "@ + signed_decimal(
                (self.imm & 0x3F) as int,
            ),
            Syntax::ShiftWord => spec_mnemonic(isa) + " "@ + rd + ", "@ + rs1 + ", "@
                + signed_decimal((self.imm & 0x1F) as int),
            Syntax::Indirect => spec_mnemonic(isa) + " "@ + rd + ", "@ + signed_decimal(
                self.imm as int,
            ) + "("@ + rs1 + ")"@,
            Syntax::Bare => spec_mnemonic(isa),
            Syntax::Debug => if isa == Isa::FENCE {
                "fence "@ + self.spec_debug()
            } else {
                "Unknown instruction "@ + self.spec_debug()
            },
        }
    }

    /// The instruction as the derived `Debug` writes it.
    pub fn debug(self) -> (text: String)
        ensures
            text@ == self.spec_debug(),
    {
        let mut text = String::from_str("Instruction32 { inst: ");
        text.append(name(self.inst));
        text.append(", pc: ");
        text.append(decimal_string(self.pc as u64).as_str());
        text.append(", rd: ");
        text.append(decimal_string(self.rd as u64).as_str());
        text.append(", rs1: ");
        text.append(decimal_string(self.rs1 as u64).as_str());
        text.append(", rs2: ");
        text.append(decimal_string(self.rs2 as u64).as_str());
        text.append(", imm: ");
        text.append(signed_decimal_string(self.imm as i64).as_str());
        text.append(" }");
        text
    }

    /// The instruction in assembly, written as the mnemonic `isa`.
    pub fn disassemble(self, isa: Isa, abi_name: bool) -> (text: String)
        ensures
            text@ == self.spec_disassemble(isa, abi_name),
    {
        let kind = syntax(isa);
        if kind == Syntax::Debug {
            let mut text = String::from_str(
                if isa == Isa::FENCE {
                    "fence "
                } else {
                    "Unknown instruction "
                },
            );
            text.append(self.debug().as_str());
            return text;
        }
        let mut text = String::from_str(mnemonic(isa));
        if kind == Syntax::Bare {
            return text;
        }
        text.append(" ");
        match kind {
            Syntax::R => text.append(self.disassemble_type_r(abi_name).as_str()),
            Syntax::I => text.append(self.disassemble_type_i(abi_name).as_str()),
            Syntax::S => text.append(self.disassemble_type_s(abi_name).as_str()),
            Syntax::B => text.append(self.disassemble_type_b(abi_name).as_str()),
            Syntax::UJ => text.append(self.disassemble_type_u_j(abi_name).as_str()),
            Syntax::Indirect => {
                text.append(get_x_register_name(self.rd, abi_name).as_str());
                text.append(", ");
                text.append(signed_decimal_string(self.imm as i64).as_str());
                text.append("(");
                text.append(get_x_register_name(self.rs1, abi_name).as_str());
                text.append(")");
            },
            _ => {
                let amount = if kind == Syntax::Shift {
                    self.imm & 0x3F
                } else {
                    self.imm & 0x1F
                };
                text.append(get_x_register_name(self.rd, abi_name).as_str());
                text.append(", ");
                text.append(get_x_register_name(self.rs1, abi_name).as_str());
                text.append(", ");
                text.append(signed_decimal_string(amount as i64).as_str());
            },
        }
        text
    }
}

impl<EEI: ExecutionEnvironmentInterface, const N: usize> RV32I<EEI, N> {
    /// The instruction `self.inst` in assembly, written as the mnemonic of
    /// its slot in the dispatch table.
    pub fn disassemble(&self) -> (text: String)
        ensures
            self.inst.inst != Isa::_SIZE ==> text@ == self.inst.spec_disassemble(
                self.isa[self.inst.inst.index()].isa,
                self.config.abi_name,
            ),
            self.inst.inst == Isa::_SIZE ==> text@ == self.inst.spec_disassemble(
                Isa::UNKNOWN,
                self.config.abi_name,
            ),
    {
        let slot = self.inst.inst.ordinal();
        if slot < ISA_SIZE {
            self.inst.disassemble(self.isa[slot].isa, self.config.abi_name)
        } else {
            self.inst.disassemble(Isa::UNKNOWN, self.config.abi_name)
        }
    }
}

impl<EEI: ExecutionEnvironmentInterface, const N: usize> RV64I<EEI, N> {
    /// The instruction `self.inst` in assembly, written as the mnemonic of
    /// its slot in the dispatch table.
    pub fn disassemble(&self) -> (text: String)
        ensures
            self.inst.inst != Isa::_SIZE ==> text@ == self.inst.spec_disassemble(
                self.isa[self.inst.inst.index()].isa,
                self.config.abi_name,
            ),
            self.inst.inst == Isa::_SIZE ==> text@ == self.inst.spec_disassemble(
                Isa::UNKNOWN,
                self.config.abi_name,
            ),
    {
        let slot = self.inst.inst.ordinal();
        if slot < ISA_SIZE {
            self.inst.disassemble(self.isa[slot].isa, self.config.abi_name)
        } else {
            self.inst.disassemble(Isa::UNKNOWN, self.config.abi_name)
        }
    }
}

} // verus!
