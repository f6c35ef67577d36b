use dyriscvic::common::instruction::Instruction;
use dyriscvic::common::instruction32::Instruction32;
use dyriscvic::common::isa::{Format, Isa, IsaEntry};
use dyriscvic::common::AsSlice;
use dyriscvic::public::{ExecutionEnvironmentInterface, MemoryAccess, Traps};
use dyriscvic::rvi::assembler::{
    ADD, ADDI, ADDIW, BEQ, DIV, EBREAK, ECALL, JAL, LB, LW, MUL, MULW, SLLI, SRAI, SUB, SW,
};
use dyriscvic::rvi::{RVConfig, RV32I, RV64I};

struct Memory {
    memory: [u8; 4096],
    traps: Vec<Traps>,
    fetches: Vec<u64>,
}

impl Memory {
    fn with(program: &[u32]) -> Self {
        let mut memory = [0; 4096];
        for (k, word) in program.iter().enumerate() {
            memory[4 * k..4 * k + 4].copy_from_slice(&word.as_slice_le());
        }
        Memory { memory, traps: Vec::new(), fetches: Vec::new() }
    }
}

impl MemoryAccess for Memory {
    fn get_8(&mut self, addr: u64) -> u8 {
        self.memory[addr as usize]
    }

    fn get_16(&mut self, addr: u64) -> u16 {
        (self.get_8(addr + 1) as u16) << 8 | self.get_8(addr) as u16
    }

    fn get_32(&mut self, addr: u64) -> u32 {
        (self.get_16(addr + 2) as u32) << 16 | self.get_16(addr) as u32
    }

    fn get_64(&mut self, addr: u64) -> u64 {
        (self.get_32(addr + 4) as u64) << 32 | self.get_32(addr) as u64
    }

    fn set_8(&mut self, addr: u64, data: u8) {
        self.memory[addr as usize] = data;
    }

    fn set_16(&mut self, addr: u64, data: u16) {
        self.set_8(addr, data as u8);
        self.set_8(addr + 1, (data >> 8) as u8);
    }

    fn set_32(&mut self, addr: u64, data: u32) {
        self.set_16(addr, data as u16);
        self.set_16(addr + 2, (data >> 16) as u16);
    }

    fn set_64(&mut self, addr: u64, data: u64) {
        self.set_32(addr, data as u32);
        self.set_32(addr + 4, (data >> 32) as u32);
    }

    fn get_opcode_32(&mut self, addr: u64) -> u32 {
        self.fetches.push(addr);
        self.get_32(addr)
    }
}

impl ExecutionEnvironmentInterface for Memory {
    fn trap(&mut self, trap: Traps) {
        self.traps.push(trap);
    }
}

fn config(ext: &str) -> RVConfig {
    RVConfig { ext: String::from(ext), abi_name: true }
}

fn run32(ext: &str, program: &[u32]) -> RV32I<Memory, 32> {
    RV32I::new([0; 32], 0, config(ext), Memory::with(program))
}

fn run64(ext: &str, program: &[u32]) -> RV64I<Memory, 32> {
    RV64I::new([0; 32], 0, config(ext), Memory::with(program))
}

#[test]
fn a_step_fetches_decodes_and_executes() {
    let program = [ADDI(1, 0, 5), ADDI(2, 0, -7i32 as u32), ADD(3, 1, 2), SUB(4, 1, 2)];
    let mut hart = run32("", &program);
    for (k, &word) in program.iter().enumerate() {
        assert_eq!(hart.single_step(), word);
        assert_eq!(hart.pc, 4 * (k as u32 + 1));
        assert_eq!(hart.inst.pc, 4 * k as u32);
    }
    assert_eq!(hart.x[..5], [0, 5, -7, -2, 12]);
    assert_eq!(hart.inst, Instruction32 { inst: Isa::SUB, pc: 12, rd: 4, rs1: 1, rs2: 2, imm: 0 });
    assert_eq!(hart.eei.env().fetches, [0, 4, 8, 12]);
    assert!(hart.eei.env().traps.is_empty());
}

#[test]
fn the_two_instruction_loop() {
    let mut hart = run64("M", &[ADDIW(1, 0, 0), JAL(0, -4i32 as u32)]);
    for _ in 0..1000 {
        assert_eq!(hart.pc, 0);
        assert_eq!(hart.single_step(), ADDIW(1, 0, 0));
        assert_eq!(hart.pc, 4);
        assert_eq!(hart.single_step(), JAL(0, -4i32 as u32));
    }
    assert_eq!(hart.pc, 0);
    assert_eq!(hart.x, [0; 32]);
    assert_eq!(hart.inst, Instruction { inst: Isa::JAL, pc: 4, rd: 0, rs1: 0, rs2: 0, imm: -4 });
    assert!(hart.eei.env().traps.is_empty());
    assert_eq!(hart.eei.env().fetches.len(), 2000);
}

#[test]
fn a_nop_only_moves_the_program_counter() {
    let nop = ADDI(0, 0, 0);
    assert_eq!(nop, 0x0000_0013);
    let mut x = [0i32; 32];
    for (k, register) in x.iter_mut().enumerate() {
        *register = -(k as i32);
    }
    let mut hart = RV32I::new(x, 8, config("M"), Memory::with(&[0, 0, nop, nop]));
    hart.single_step();
    assert_eq!(hart.pc, 12);
    assert_eq!(hart.x, x);
    assert_eq!(hart.inst, Instruction32 { inst: Isa::ADDI, pc: 8, rd: 0, rs1: 0, rs2: 0, imm: 0 });
    hart.single_step();
    assert_eq!(hart.pc, 16);
    assert_eq!(hart.x, x);
    assert!(hart.eei.env().traps.is_empty());

    let mut wide = RV64I::new([0; 32], 8, config(""), Memory::with(&[0, 0, nop]));
    wide.x[31] = i64::MIN;
    let before = wide.x;
    wide.single_step();
    assert_eq!(wide.pc, 12);
    assert_eq!(wide.x, before);
    assert!(wide.eei.env().traps.is_empty());
}

#[test]
fn register_zero_stays_zero() {
    let program = [
        ADDI(0, 0, 5),
        ADDI(1, 0, 5),
        ADD(0, 1, 1),
        SLLI(0, 1, 3),
        MUL(0, 1, 1),
        LW(0, 0, 0),
        JAL(0, 8),
        0xFFFF_FFFF,
        SW(1, 0, 0x100),
        LB(0, 1, 0),
        SRAI(0, 1, 1),
        ECALL(),
        EBREAK(),
    ];
    let mut hart = run32("M", &program);
    for _ in 0..program.len() {
        hart.single_step();
        assert_eq!(hart.x[0], 0);
    }
    assert_eq!(hart.x[1], 5);
    assert_eq!(
        hart.eei.env().traps,
        [
            Traps::IllegalInstruction,
            Traps::IllegalInstruction,
            Traps::SystemCall,
            Traps::Breakpoint
        ]
    );
}

#[test]
fn only_instructions_of_four_bytes_are_executed() {
    // the low bits of the first halfword give the length: 2, 6, 8 and 10 bytes
    for word in [0x0000_0001u32, 0x0000_4082, 0x0000_001F, 0x0000_003F, 0x0000_007F, 0xFFFF_FFFF] {
        let mut hart = run32("C", &[word, word]);
        let before = hart.x;
        assert_eq!(hart.single_step(), word);
        assert_eq!(hart.pc, 4);
        assert_eq!(hart.x, before);
        assert_eq!(hart.inst, Instruction32::new_empty(Isa::UNKNOWN, 0));
        assert!(hart.eei.env().traps.is_empty());
        assert_eq!(hart.eei.env().fetches, [0]);
    }
    // an opcode of four bytes that is no instruction is illegal
    let mut hart = run32("", &[0x0000_0003 | 7 << 12]);
    hart.single_step();
    assert_eq!(hart.pc, 4);
    assert_eq!(hart.inst, Instruction32::new_empty(Isa::UNKNOWN, 0));
    assert_eq!(hart.eei.env().traps, [Traps::IllegalInstruction]);
}

#[test]
fn the_program_counter_wraps_round() {
    let mut hart = RV32I::new([0; 32], 0xFFFF_FFFC, config(""), Wrapping);
    hart.single_step();
    assert_eq!(hart.pc, 0);
    let mut wide = RV64I::new([0; 32], u64::MAX - 3, config(""), Wrapping);
    wide.single_step();
    assert_eq!(wide.pc, 0);
}

#[test]
fn instructions_of_a_disabled_extension_are_illegal() {
    // multiplication without M
    let mut hart = run32("", &[ADDI(1, 0, 6), MUL(2, 1, 1)]);
    hart.single_step();
    hart.single_step();
    assert_eq!(hart.x[2], 0);
    assert_eq!(hart.inst, Instruction32::new_empty(Isa::MUL, 4));
    assert_eq!(hart.eei.env().traps, [Traps::IllegalInstruction]);
    assert_eq!(hart.isa[Isa::MUL.ordinal()], IsaEntry::unknown());
    // and with M
    let mut hart = run32("M", &[ADDI(1, 0, 6), MUL(2, 1, 1), DIV(3, 2, 1)]);
    hart.single_step();
    hart.single_step();
    hart.single_step();
    assert_eq!(hart.x[2], 36);
    assert_eq!(hart.x[3], 6);
    assert!(hart.eei.env().traps.is_empty());
    assert_eq!(hart.isa[Isa::MUL.ordinal()], IsaEntry { isa: Isa::MUL, decoder: Format::R });
    // instructions on words on a 32-bit hart, whatever the extensions
    let mut hart = run32("M", &[ADDIW(1, 0, 6), MULW(2, 1, 1)]);
    hart.single_step();
    hart.single_step();
    assert_eq!(hart.x, [0; 32]);
    assert_eq!(hart.eei.env().traps, [Traps::IllegalInstruction, Traps::IllegalInstruction]);
    // on a 64-bit hart MULW needs M
    let mut wide = run64("", &[ADDIW(1, 0, 6), MULW(2, 1, 1)]);
    wide.single_step();
    wide.single_step();
    assert_eq!(wide.x[1], 6);
    assert_eq!(wide.x[2], 0);
    assert_eq!(wide.eei.env().traps, [Traps::IllegalInstruction]);
    let mut wide = run64("M", &[ADDIW(1, 0, 6), MULW(2, 1, 1)]);
    wide.single_step();
    wide.single_step();
    assert_eq!(wide.x[2], 36);
    assert!(wide.eei.env().traps.is_empty());
}

#[test]
fn the_dispatch_table_of_each_hart() {
    let hart = run32("M", &[]);
    let wide = run64("", &[]);
    for slot in 0..66 {
        let narrow_entry = hart.isa[slot];
        let wide_entry = wide.isa[slot];
        let base = (1..=40).contains(&slot);
        let base64 = (41..=52).contains(&slot);
        let muldiv = (53..=60).contains(&slot);
        if base || muldiv {
            assert_eq!(narrow_entry.isa.ordinal(), slot);
            assert_eq!(narrow_entry.decoder, narrow_entry.isa.format());
        } else {
            assert_eq!(narrow_entry, IsaEntry::unknown());
        }
        if base || base64 {
            assert_eq!(wide_entry.isa.ordinal(), slot);
            assert_eq!(wide_entry.decoder, wide_entry.isa.format());
        } else {
            assert_eq!(wide_entry, IsaEntry::unknown());
        }
    }
}

#[test]
fn a_taken_branch_overrides_the_step() {
    let mut hart = run32("", &[BEQ(0, 0, 8), ADDI(1, 0, 1), ADDI(2, 0, 2), BEQ(0, 0, -12i32 as u32)]);
    hart.single_step();
    assert_eq!(hart.pc, 8);
    hart.single_step();
    assert_eq!(hart.pc, 12);
    hart.single_step();
    assert_eq!(hart.pc, 0);
    assert_eq!(hart.x[..3], [0, 0, 2]);
    // a branch to a misaligned target goes on with the next instruction
    let mut hart = run32("", &[BEQ(0, 0, 6), ADDI(1, 0, 1)]);
    hart.single_step();
    assert_eq!(hart.pc, 4);
    assert_eq!(hart.eei.env().traps, [Traps::InstructionAddressMisaligned]);
    hart.single_step();
    assert_eq!(hart.x[1], 1);
}

#[test]
fn a_hart_of_sixteen_registers() {
    let program = [
        ADDI(15, 0, 7),
        ADD(1, 15, 15),
        ADDI(16, 0, 7),
        ADD(1, 16, 0),
        ADD(2, 0, 31),
        SW(17, 1, 0),
        LW(1, 20, 0),
        JAL(16, 8),
        BEQ(0, 16, 8),
        SUB(3, 1, 15),
    ];
    let mut hart: RV32I<Memory, 16> = RV32I::new([0; 16], 0, config(""), Memory::with(&program));
    hart.single_step();
    hart.single_step();
    assert_eq!(hart.x[15], 7);
    assert_eq!(hart.x[1], 14);
    assert!(hart.eei.env().traps.is_empty());
    for k in 2..9 {
        let before = hart.x;
        assert_eq!(hart.single_step(), program[k]);
        assert_eq!(hart.x, before);
        assert_eq!(hart.pc, 4 * (k as u32 + 1));
        assert!(!hart.ready());
        assert_eq!(hart.eei.env().traps.len(), k - 1);
        assert_eq!(hart.eei.env().traps[k - 2], Traps::IllegalInstruction);
    }
    hart.single_step();
    assert!(hart.ready());
    assert_eq!(hart.x[3], 7);
    assert_eq!(hart.eei.env().traps.len(), 7);
    // the same program on a hart of 32 registers
    let mut hart: RV32I<Memory, 32> = RV32I::new([0; 32], 0, config(""), Memory::with(&program));
    for _ in 0..4 {
        hart.single_step();
    }
    assert_eq!(hart.x[16], 7);
    assert_eq!(hart.x[1], 7);
    assert!(hart.eei.env().traps.is_empty());
    let mut wide: RV64I<Memory, 16> = RV64I::new([0; 16], 0, config("M"), Memory::with(&program));
    for _ in 0..3 {
        wide.single_step();
    }
    assert_eq!(wide.x[15], 7);
    assert_eq!(wide.x[1], 14);
    assert_eq!(wide.eei.env().traps, [Traps::IllegalInstruction]);
}

struct Wrapping;

impl MemoryAccess for Wrapping {
    fn get_8(&mut self, _: u64) -> u8 {
        0
    }

    fn get_16(&mut self, _: u64) -> u16 {
        0
    }

    fn get_32(&mut self, _: u64) -> u32 {
        0
    }

    fn get_64(&mut self, _: u64) -> u64 {
        0
    }

    fn set_8(&mut self, _: u64, _: u8) {}

    fn set_16(&mut self, _: u64, _: u16) {}

    fn set_32(&mut self, _: u64, _: u32) {}

    fn set_64(&mut self, _: u64, _: u64) {}

    fn get_opcode_32(&mut self, _: u64) -> u32 {
        0x0000_0013
    }
}

impl ExecutionEnvironmentInterface for Wrapping {
    fn trap(&mut self, _: Traps) {}
}
