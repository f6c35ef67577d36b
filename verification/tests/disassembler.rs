use dyriscvic::common::instruction::Instruction;
use dyriscvic::common::instruction32::Instruction32;
use dyriscvic::common::isa::Isa;
use dyriscvic::public::{ExecutionEnvironmentInterface, MemoryAccess, Traps};
use dyriscvic::rvi::assembler::{ADDI, JALR, MUL, SRAI, SW};
use dyriscvic::rvi::disassembler::{mnemonic, name, syntax, Syntax};
use dyriscvic::rvi::{RVConfig, RV32I, RV64I};

const ALL: [Isa; 67] = [
    Isa::UNKNOWN, Isa::ADD, Isa::ADDI, Isa::AND, Isa::ANDI, Isa::AUIPC, Isa::BEQ, Isa::BGE,
    Isa::BGEU, Isa::BLT, Isa::BLTU, Isa::BNE, Isa::EBREAK, Isa::ECALL, Isa::FENCE, Isa::JAL,
    Isa::JALR, Isa::LB, Isa::LBU, Isa::LH, Isa::LHU, Isa::LUI, Isa::LW, Isa::OR, Isa::ORI, Isa::SB,
    Isa::SH, Isa::SLL, Isa::SLLI, Isa::SLT, Isa::SLTI, Isa::SLTIU, Isa::SLTU, Isa::SRA, Isa::SRAI,
    Isa::SRL, Isa::SRLI, Isa::SUB, Isa::SW, Isa::XOR, Isa::XORI, Isa::ADDIW, Isa::ADDW, Isa::LD,
    Isa::LWU, Isa::SD, Isa::SLLIW, Isa::SLLW, Isa::SRAIW, Isa::SRAW, Isa::SRLIW, Isa::SRLW,
    Isa::SUBW, Isa::DIV, Isa::DIVU, Isa::MUL, Isa::MULH, Isa::MULHSU, Isa::MULHU, Isa::REM,
    Isa::REMU, Isa::DIVUW, Isa::DIVW, Isa::MULW, Isa::REMUW, Isa::REMW, Isa::_SIZE,
];

fn sample() -> Instruction32 {
    Instruction32 { inst: Isa::ADD, pc: 0x100, rd: 10, rs1: 2, rs2: 31, imm: -456 }
}

fn wide_sample() -> Instruction {
    Instruction { inst: Isa::ADD, pc: 0x1_0000_0000, rd: 10, rs1: 2, rs2: 31, imm: 1035 }
}

#[test]
fn names_of_the_mnemonics() {
    for (slot, &isa) in ALL.iter().enumerate() {
        assert_eq!(isa.ordinal(), slot);
        assert_eq!(name(isa), format!("{:?}", isa));
        if isa != Isa::UNKNOWN && isa != Isa::_SIZE {
            assert_eq!(mnemonic(isa), format!("{:?}", isa).to_lowercase());
        }
    }
}

#[test]
fn operands_by_format() {
    let inst = sample();
    assert_eq!(inst.disassemble_type_r(true), "a0, sp, t6");
    assert_eq!(inst.disassemble_type_r(false), "x10, x2, x31");
    assert_eq!(inst.disassemble_type_i(true), "a0, sp, -456");
    assert_eq!(inst.disassemble_type_s(true), "t6, sp, -456");
    assert_eq!(inst.disassemble_type_b(false), "x2, x31, -456");
    assert_eq!(inst.disassemble_type_u_j(true), "a0, -456");
    let inst = wide_sample();
    assert_eq!(inst.disassemble_type_r(true), "a0, sp, t6");
    assert_eq!(inst.disassemble_type_i(false), "x10, x2, 1035");
    assert_eq!(inst.disassemble_type_s(false), "x31, x2, 1035");
    assert_eq!(inst.disassemble_type_b(true), "sp, t6, 1035");
    assert_eq!(inst.disassemble_type_u_j(false), "x10, 1035");
    let inst = Instruction { imm: i32::MIN, ..inst };
    assert_eq!(inst.disassemble_type_u_j(true), "a0, -2147483648");
}

#[test]
fn assembly_of_every_mnemonic() {
    let inst = sample();
    let wide = wide_sample();
    for &isa in ALL.iter() {
        let text = inst.disassemble(isa, true);
        let expected = match syntax(isa) {
            Syntax::R => format!("{} a0, sp, t6", mnemonic(isa)),
            Syntax::I => format!("{} a0, sp, -456", mnemonic(isa)),
            Syntax::S => format!("{} t6, sp, -456", mnemonic(isa)),
            Syntax::B => format!("{} sp, t6, -456", mnemonic(isa)),
            Syntax::UJ => format!("{} a0, -456", mnemonic(isa)),
            Syntax::Shift => format!("{} a0, sp, {}", mnemonic(isa), -456 & 0x3F),
            Syntax::ShiftWord => format!("{} a0, sp, {}", mnemonic(isa), -456 & 0x1F),
            Syntax::Indirect => String::from("jalr a0, -456(sp)"),
            Syntax::Bare => String::from(mnemonic(isa)),
            Syntax::Debug => {
                if isa == Isa::FENCE {
                    format!("fence {:?}", inst)
                } else {
                    format!("Unknown instruction {:?}", inst)
                }
            }
        };
        assert_eq!(text, expected);
        assert_eq!(
            wide.disassemble(isa, false),
            expected
                .replace("a0", "x10")
                .replace("sp", "x2")
                .replace("t6", "x31")
                .replace(&format!("{:?}", inst), &format!("{:?}", wide))
                .replace("-456", "1035")
                .replace(&format!("x2, {}", -456 & 0x3F), &format!("x2, {}", 1035 & 0x3F))
                .replace(&format!("x2, {}", -456 & 0x1F), &format!("x2, {}", 1035 & 0x1F))
        );
    }
    assert_eq!(inst.disassemble(Isa::ADD, true), "add a0, sp, t6");
    assert_eq!(inst.disassemble(Isa::LW, true), "lw a0, sp, -456");
    assert_eq!(inst.disassemble(Isa::SRAI, true), "srai a0, sp, 56");
    assert_eq!(wide.disassemble(Isa::SRAI, true), "srai a0, sp, 11");
    assert_eq!(wide.disassemble(Isa::SRAIW, true), "sraiw a0, sp, 11");
    assert_eq!(inst.disassemble(Isa::EBREAK, true), "ebreak");
    assert_eq!(inst.disassemble(Isa::ECALL, false), "ecall");
    assert_eq!(
        inst.disassemble(Isa::FENCE, true),
        "fence Instruction32 { inst: ADD, pc: 256, rd: 10, rs1: 2, rs2: 31, imm: -456 }"
    );
    assert_eq!(
        wide.disassemble(Isa::UNKNOWN, true),
        "Unknown instruction Instruction { inst: ADD, pc: 4294967296, rd: 10, rs1: 2, rs2: 31, imm: 1035 }"
    );
    assert_eq!(inst.debug(), format!("{:?}", inst));
    assert_eq!(wide.debug(), format!("{:?}", wide));
}

struct Program(Vec<u32>);

impl MemoryAccess for Program {
    fn get_8(&mut self, _: u64) -> u8 {
        0
    }

    fn get_16(&mut self, _: u64) -> u16 {
        0
    }

    fn get_32(&mut self, _: u64) -> u32 {
        0
    }

    fn get_64(&mut self, _: u64) -> u64 {
        0
    }

    fn set_8(&mut self, _: u64, _: u8) {}

    fn set_16(&mut self, _: u64, _: u16) {}

    fn set_32(&mut self, _: u64, _: u32) {}

    fn set_64(&mut self, _: u64, _: u64) {}

    fn get_opcode_32(&mut self, addr: u64) -> u32 {
        self.0[addr as usize / 4]
    }
}

impl ExecutionEnvironmentInterface for Program {
    fn trap(&mut self, _: Traps) {}
}

#[test]
fn a_hart_disassembles_what_it_executes() {
    let program = vec![
        ADDI(1, 0, -7i32 as u32),
        SW(1, 2, 0x40),
        SRAI(5, 6, 3),
        JALR(1, 5, 0x10),
        MUL(1, 2, 3),
        0xFFFF_FFFF,
    ];
    let expected = [
        "addi ra, zero, -7",
        "sw ra, sp, 64",
        "srai t0, t1, 3",
        "jalr ra, 16(t0)",
        "Unknown instruction Instruction32 { inst: MUL, pc: 0, rd: 0, rs1: 0, rs2: 0, imm: 0 }",
    ];
    for (k, text) in expected.iter().enumerate() {
        let config = RVConfig { ext: String::new(), abi_name: true };
        let mut hart = RV32I::new([0; 32], 4 * k as u32, config, Program(program.clone()));
        hart.single_step();
        let text = text.replace("pc: 0", &format!("pc: {}", 4 * k));
        assert_eq!(hart.disassemble(), text);
    }
    let config = RVConfig { ext: String::from("M"), abi_name: false };
    let mut wide = RV64I::new([0; 32], 16, config, Program(program.clone()));
    assert_eq!(
        wide.disassemble(),
        "Unknown instruction Instruction { inst: UNKNOWN, pc: 0, rd: 0, rs1: 0, rs2: 0, imm: 0 }"
    );
    wide.single_step();
    assert_eq!(wide.disassemble(), "mul x1, x2, x3");
    wide.inst.inst = Isa::_SIZE;
    assert_eq!(
        wide.disassemble(),
        "Unknown instruction Instruction { inst: _SIZE, pc: 16, rd: 1, rs1: 2, rs2: 3, imm: 0 }"
    );
}
