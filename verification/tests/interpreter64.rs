use dyriscvic::common::instruction::Instruction;
use dyriscvic::common::isa::Isa;
use dyriscvic::public::{ExecutionEnvironmentInterface, MemoryAccess, Traps};
use dyriscvic::rvi::{RVConfig, RV64I};

struct Machine {
    memory: Vec<u8>,
    traps: Vec<Traps>,
    reads: Vec<(u64, u8)>,
    writes: Vec<(u64, u8)>,
}

impl Machine {
    fn new() -> Self {
        let memory = (0..=255u8).collect();
        Machine { memory, traps: Vec::new(), reads: Vec::new(), writes: Vec::new() }
    }

    fn byte(&self, addr: u64) -> u8 {
        self.memory[addr as usize % 256]
    }

    fn put(&mut self, addr: u64, data: u8) {
        self.memory[addr as usize % 256] = data;
    }
}

impl MemoryAccess for Machine {
    fn get_8(&mut self, addr: u64) -> u8 {
        self.reads.push((addr, 1));
        self.byte(addr)
    }

    fn get_16(&mut self, addr: u64) -> u16 {
        self.reads.push((addr, 2));
        (0..2).fold(0, |word, k| word | (self.byte(addr + k) as u16) << (8 * k))
    }

    fn get_32(&mut self, addr: u64) -> u32 {
        self.reads.push((addr, 4));
        (0..4).fold(0, |word, k| word | (self.byte(addr + k) as u32) << (8 * k))
    }

    fn get_64(&mut self, addr: u64) -> u64 {
        self.reads.push((addr, 8));
        (0..8).fold(0, |word, k| word | (self.byte(addr + k) as u64) << (8 * k))
    }

    fn set_8(&mut self, addr: u64, data: u8) {
        self.writes.push((addr, 1));
        self.put(addr, data);
    }

    fn set_16(&mut self, addr: u64, data: u16) {
        self.writes.push((addr, 2));
        for k in 0..2 {
            self.put(addr + k, (data >> (8 * k)) as u8);
        }
    }

    fn set_32(&mut self, addr: u64, data: u32) {
        self.writes.push((addr, 4));
        for k in 0..4 {
            self.put(addr + k, (data >> (8 * k)) as u8);
        }
    }

    fn set_64(&mut self, addr: u64, data: u64) {
        self.writes.push((addr, 8));
        for k in 0..8 {
            self.put(addr + k, (data >> (8 * k)) as u8);
        }
    }

    fn get_opcode_32(&mut self, addr: u64) -> u32 {
        (0..4).fold(0, |word, k| word | (self.byte(addr + k) as u32) << (8 * k))
    }
}

impl ExecutionEnvironmentInterface for Machine {
    fn trap(&mut self, trap: Traps) {
        self.traps.push(trap);
    }
}

fn wide_hart(ext: &str) -> RV64I<Machine, 32> {
    let mut x = [0i64; 32];
    for (k, register) in x.iter_mut().enumerate() {
        *register = 1000 + k as i64;
    }
    RV64I::new(x, 0x40, RVConfig { ext: String::from(ext), abi_name: false }, Machine::new())
}

fn wide(isa: Isa, pc: u64, rd: u8, rs1: u8, rs2: u8, imm: i32) -> Instruction {
    Instruction { inst: isa, pc, rd, rs1, rs2, imm }
}

/// Runs `op` with `rs1 = a`, `rs2 = b` and the immediate `imm`, and gives what `rd` holds after.
fn alu64(op: fn(&mut RV64I<Machine, 32>), a: i64, b: i64, imm: i32) -> i64 {
    let mut hart = wide_hart("M");
    hart.x[5] = a;
    hart.x[6] = b;
    hart.inst = wide(Isa::UNKNOWN, 0x1_0000_0100, 7, 5, 6, imm);
    let before = hart.x;
    op(&mut hart);
    for k in 0..32 {
        if k != 7 {
            assert_eq!(hart.x[k], before[k]);
        }
    }
    assert_eq!(hart.pc, 0x40);
    assert!(hart.eei.env().traps.is_empty());
    assert!(hart.eei.env().reads.is_empty());
    assert!(hart.eei.env().writes.is_empty());
    let mut zero = wide_hart("M");
    zero.x[5] = a;
    zero.x[6] = b;
    zero.inst = wide(Isa::UNKNOWN, 0x1_0000_0100, 0, 5, 6, imm);
    let before = zero.x;
    op(&mut zero);
    assert_eq!(zero.x, before);
    assert_eq!(zero.x[0], 0);
    hart.x[7]
}

#[test]
fn new_clears_register_zero_64() {
    let hart = RV64I::new(
        [-7; 32],
        0x1_0000_0000,
        RVConfig { ext: String::from("M"), abi_name: true },
        Machine::new(),
    );
    assert_eq!(hart.x[0], 0);
    for k in 1..32 {
        assert_eq!(hart.x[k], -7);
    }
    assert_eq!(hart.pc, 0x1_0000_0000);
    assert_eq!(hart.inst, wide(Isa::UNKNOWN, 0, 0, 0, 0, 0));
    assert!(hart.eei.env().traps.is_empty());
}

#[test]
fn arithmetic_and_logic_64() {
    assert_eq!(alu64(RV64I::ADD, 3, 4, 0), 7);
    assert_eq!(alu64(RV64I::ADD, i64::MAX, 1, 0), i64::MIN);
    assert_eq!(alu64(RV64I::ADD, i32::MAX as i64, 1, 0), 0x8000_0000);
    assert_eq!(alu64(RV64I::ADDI, 3, 99, -456), -453);
    assert_eq!(alu64(RV64I::ADDI, i64::MIN, 99, -1), i64::MAX);
    assert_eq!(alu64(RV64I::SUB, 3, 4, 0), -1);
    assert_eq!(alu64(RV64I::SUB, i64::MIN, 1, 0), i64::MAX);
    assert_eq!(alu64(RV64I::AND, -0x0100_0000_0000_1100, 0x0F00_0000_0000_1010, 0), 0x0E00_0000_0000_0000);
    assert_eq!(alu64(RV64I::ANDI, 0x1234_5678_9ABC_DEF0, 0, -256), 0x1234_5678_9ABC_DE00);
    assert_eq!(alu64(RV64I::OR, 0b1100, 0b1010, 0), 0b1110);
    assert_eq!(alu64(RV64I::ORI, 0b1100, 0, -1), -1);
    assert_eq!(alu64(RV64I::XOR, 0b1100, 0b1010, 0), 0b0110);
    assert_eq!(alu64(RV64I::XORI, 0x0F0F, 0, -1), !0x0F0F);
    assert_eq!(alu64(RV64I::LUI, 1, 2, 0x1234_5000), 0x1234_5000);
    assert_eq!(alu64(RV64I::LUI, 1, 2, i32::MIN), i32::MIN as i64);
    // pc of the instruction is 0x1_0000_0100
    assert_eq!(alu64(RV64I::AUIPC, 1, 2, 0x1000), 0x1_0000_1100);
    assert_eq!(alu64(RV64I::AUIPC, 1, 2, i32::MIN), 0x8000_0100);
    assert_eq!(alu64(RV64I::SLT, -1, 1, 0), 1);
    assert_eq!(alu64(RV64I::SLT, 1, -1, 0), 0);
    assert_eq!(alu64(RV64I::SLTU, -1, 1, 0), 0);
    assert_eq!(alu64(RV64I::SLTU, 1, -1, 0), 1);
    assert_eq!(alu64(RV64I::SLTI, -5, 0, -4), 1);
    assert_eq!(alu64(RV64I::SLTIU, 0xFFFF_FFFF, 0, -1), 1);
    assert_eq!(alu64(RV64I::SLTIU, -1, 0, -1), 0);
}

#[test]
fn shifts_take_the_low_six_bits() {
    assert_eq!(alu64(RV64I::SLL, 1, 32, 0), 0x1_0000_0000);
    assert_eq!(alu64(RV64I::SLL, 1, 63, 0), i64::MIN);
    assert_eq!(alu64(RV64I::SLL, 1, 64, 0), 1);
    assert_eq!(alu64(RV64I::SLL, 1, 65, 0), 2);
    assert_eq!(alu64(RV64I::SLLI, 1, 0, 33), 0x2_0000_0000);
    assert_eq!(alu64(RV64I::SLLI, 1, 0, 64), 1);
    assert_eq!(alu64(RV64I::SRL, -16, 2, 0), 0x3FFF_FFFF_FFFF_FFFC);
    assert_eq!(alu64(RV64I::SRL, i64::MIN, 63, 0), 1);
    assert_eq!(alu64(RV64I::SRL, -16, 66, 0), 0x3FFF_FFFF_FFFF_FFFC);
    assert_eq!(alu64(RV64I::SRLI, -16, 0, 62), 3);
    assert_eq!(alu64(RV64I::SRA, -16, 2, 0), -4);
    assert_eq!(alu64(RV64I::SRA, i64::MIN, 63, 0), -1);
    assert_eq!(alu64(RV64I::SRAI, -16, 0, 0x400 | 2), -4);
    assert_eq!(alu64(RV64I::SRAI, i64::MIN, 0, 0x400 | 60), -8);
}

#[test]
fn instructions_on_words_sign_extend() {
    assert_eq!(alu64(RV64I::ADDW, 3, 4, 0), 7);
    assert_eq!(alu64(RV64I::ADDW, i32::MAX as i64, 1, 0), i32::MIN as i64);
    assert_eq!(alu64(RV64I::ADDW, 0x1_0000_0003, 0x7_0000_0004, 0), 7);
    assert_eq!(alu64(RV64I::ADDIW, i32::MAX as i64, 0, 1), i32::MIN as i64);
    assert_eq!(alu64(RV64I::ADDIW, 0x1234_0000_0005, 0, -6), -1);
    assert_eq!(alu64(RV64I::ADDIW, 0xFFFF_FFFF, 0, 0), -1);
    assert_eq!(alu64(RV64I::SUBW, 3, 4, 0), -1);
    assert_eq!(alu64(RV64I::SUBW, i32::MIN as i64, 1, 0), i32::MAX as i64);
    assert_eq!(alu64(RV64I::SLLW, 1, 31, 0), i32::MIN as i64);
    assert_eq!(alu64(RV64I::SLLW, 1, 32, 0), 1);
    assert_eq!(alu64(RV64I::SLLW, 0x1_0000_0001, 4, 0), 16);
    assert_eq!(alu64(RV64I::SLLIW, 1, 0, 31), i32::MIN as i64);
    assert_eq!(alu64(RV64I::SLLIW, 1, 0, 33), 2);
    assert_eq!(alu64(RV64I::SRLW, 0xFFFF_FFFF, 4, 0), 0x0FFF_FFFF);
    assert_eq!(alu64(RV64I::SRLW, 0xFFFF_FFFF, 0, 0), -1);
    assert_eq!(alu64(RV64I::SRLW, -1, 36, 0), 0x0FFF_FFFF);
    assert_eq!(alu64(RV64I::SRLIW, 0x1_8000_0000, 0, 31), 1);
    assert_eq!(alu64(RV64I::SRLIW, 0x1_8000_0000, 0, 0), i32::MIN as i64);
    assert_eq!(alu64(RV64I::SRAW, 0x8000_0000, 4, 0), -0x0800_0000);
    assert_eq!(alu64(RV64I::SRAW, 0x7000_0000, 36, 0), 0x0700_0000);
    assert_eq!(alu64(RV64I::SRAIW, 0x8000_0000, 0, 0x400 | 31), -1);
    assert_eq!(alu64(RV64I::SRAIW, 0x1_4000_0000, 0, 0x400 | 30), 1);
}

#[test]
fn multiplication_64() {
    assert_eq!(alu64(RV64I::MUL, 6, -7, 0), -42);
    assert_eq!(alu64(RV64I::MUL, 0x1_0000_0000, 0x1_0000_0000, 0), 0);
    assert_eq!(alu64(RV64I::MUL, i64::MIN, -1, 0), i64::MIN);
    assert_eq!(alu64(RV64I::MULH, 0x1_0000_0000, 0x1_0000_0000, 0), 1);
    assert_eq!(alu64(RV64I::MULH, -1, 1, 0), -1);
    assert_eq!(alu64(RV64I::MULH, -1, -1, 0), 0);
    assert_eq!(alu64(RV64I::MULH, i64::MIN, i64::MIN, 0), 0x4000_0000_0000_0000);
    assert_eq!(alu64(RV64I::MULH, i64::MIN, i64::MAX, 0), -0x4000_0000_0000_0000);
    assert_eq!(alu64(RV64I::MULHU, -1, -1, 0), -2);
    assert_eq!(alu64(RV64I::MULHU, -1, 1, 0), 0);
    assert_eq!(alu64(RV64I::MULHU, i64::MIN, 2, 0), 1);
    assert_eq!(alu64(RV64I::MULHSU, -1, -1, 0), -1);
    assert_eq!(alu64(RV64I::MULHSU, 2, -1, 0), 1);
    assert_eq!(alu64(RV64I::MULHSU, i64::MIN, -1, 0), i64::MIN);
    assert_eq!(alu64(RV64I::MULW, 0x1_0000, 0x1_0000, 0), 0);
    assert_eq!(alu64(RV64I::MULW, 0x1_0000_0003, -5, 0), -15);
    assert_eq!(alu64(RV64I::MULW, 0xFFFF, 0x8001, 0), 0x8000_7FFFu32 as i32 as i64);
}

#[test]
fn division_64() {
    assert_eq!(alu64(RV64I::DIV, 7, 2, 0), 3);
    assert_eq!(alu64(RV64I::DIV, -7, 2, 0), -3);
    assert_eq!(alu64(RV64I::DIV, 7, -2, 0), -3);
    assert_eq!(alu64(RV64I::DIV, -7, -2, 0), 3);
    assert_eq!(alu64(RV64I::DIV, 7, 0, 0), -1);
    assert_eq!(alu64(RV64I::DIV, i64::MIN, -1, 0), i64::MIN);
    assert_eq!(alu64(RV64I::DIV, i64::MIN, 1, 0), i64::MIN);
    assert_eq!(alu64(RV64I::DIV, i64::MAX, -1, 0), -i64::MAX);
    assert_eq!(alu64(RV64I::DIV, i32::MIN as i64, -1, 0), 0x8000_0000);
    assert_eq!(alu64(RV64I::REM, 7, 2, 0), 1);
    assert_eq!(alu64(RV64I::REM, -7, 2, 0), -1);
    assert_eq!(alu64(RV64I::REM, 7, -2, 0), 1);
    assert_eq!(alu64(RV64I::REM, -7, 0, 0), -7);
    assert_eq!(alu64(RV64I::REM, i64::MIN, -1, 0), 0);
    assert_eq!(alu64(RV64I::DIVU, -1, 2, 0), i64::MAX);
    assert_eq!(alu64(RV64I::DIVU, 7, 0, 0), -1);
    assert_eq!(alu64(RV64I::REMU, -1, 16, 0), 15);
    assert_eq!(alu64(RV64I::REMU, -7, 0, 0), -7);
    assert_eq!(alu64(RV64I::DIVW, -7, 2, 0), -3);
    assert_eq!(alu64(RV64I::DIVW, 0x1_0000_0007, 0x1_0000_0000 - 2, 0), -3);
    assert_eq!(alu64(RV64I::DIVW, 7, 0x1_0000_0000, 0), -1);
    assert_eq!(alu64(RV64I::DIVW, i32::MIN as i64, -1, 0), i32::MIN as i64);
    assert_eq!(alu64(RV64I::DIVUW, -1, 2, 0), i32::MAX as i64);
    assert_eq!(alu64(RV64I::DIVUW, -1, 1, 0), -1);
    assert_eq!(alu64(RV64I::DIVUW, 7, 0, 0), -1);
    assert_eq!(alu64(RV64I::REMW, -7, 2, 0), -1);
    assert_eq!(alu64(RV64I::REMW, 0x7_0000_0007, 0, 0), 7);
    assert_eq!(alu64(RV64I::REMW, 0xFFFF_FFF9, 0, 0), -7);
    assert_eq!(alu64(RV64I::REMW, i32::MIN as i64, -1, 0), 0);
    assert_eq!(alu64(RV64I::REMUW, -1, 16, 0), 15);
    assert_eq!(alu64(RV64I::REMUW, 0xFFFF_FFF9, 0, 0), -7);
    assert_eq!(alu64(RV64I::REMUW, 0xFFFF_FFFF, 0x1_0000_0000 - 2, 0), 1);
}

#[test]
fn branches_and_jumps_64() {
    let mut hart = wide_hart("");
    hart.x[5] = -1;
    hart.x[6] = 1;
    hart.inst = wide(Isa::BLTU, 0x1_0000_0000, 0, 5, 6, -4);
    hart.BLTU();
    assert_eq!(hart.pc, 0x40);
    hart.BGEU();
    assert_eq!(hart.pc, 0xFFFF_FFFC);
    hart.pc = 0x40;
    hart.BLT();
    assert_eq!(hart.pc, 0xFFFF_FFFC);
    hart.pc = 0x40;
    hart.BGE();
    assert_eq!(hart.pc, 0x40);
    hart.BEQ();
    assert_eq!(hart.pc, 0x40);
    hart.BNE();
    assert_eq!(hart.pc, 0xFFFF_FFFC);
    assert!(hart.eei.env().traps.is_empty());
    hart.inst = wide(Isa::BNE, 0x1_0000_0000, 0, 5, 6, 6);
    hart.pc = 0x40;
    hart.BNE();
    assert_eq!(hart.pc, 0x40);
    assert_eq!(hart.eei.env().traps, [Traps::InstructionAddressMisaligned]);

    let mut hart = wide_hart("");
    hart.inst = wide(Isa::JAL, 4, 0, 0, 0, -4);
    let before = hart.x;
    hart.JAL();
    assert_eq!(hart.pc, 0);
    assert_eq!(hart.x, before);
    hart.inst = wide(Isa::JAL, 0, 1, 0, 0, -4);
    hart.JAL();
    assert_eq!(hart.pc, 0xFFFF_FFFF_FFFF_FFFC);
    assert_eq!(hart.x[1], 4);
    hart.x[5] = 0x7_0000_0001;
    hart.inst = wide(Isa::JALR, 0xFFFF_FFFF_FFFF_FFFC, 2, 5, 0, 8);
    hart.JALR();
    assert_eq!(hart.pc, 0x7_0000_0008);
    assert_eq!(hart.x[2], 0);
    assert!(hart.eei.env().traps.is_empty());
    hart.inst = wide(Isa::JALR, 0x100, 3, 5, 0, 2);
    hart.JALR();
    assert_eq!(hart.pc, 0x7_0000_0008);
    assert_eq!(hart.x[3], 1003);
    assert_eq!(hart.eei.env().traps, [Traps::InstructionAddressMisaligned]);
    assert!(hart.is_misaligned(0x1_0000_0002));
    assert!(!hart.is_misaligned(0x1_0000_0004));
}

fn load64(op: fn(&mut RV64I<Machine, 32>), addr: i64, imm: i32) -> (i64, Vec<(u64, u8)>) {
    let mut hart = wide_hart("");
    hart.x[5] = addr;
    hart.inst = wide(Isa::UNKNOWN, 0x100, 7, 5, 0, imm);
    op(&mut hart);
    assert!(hart.eei.env().traps.is_empty());
    assert!(hart.eei.env().writes.is_empty());
    assert_eq!(hart.pc, 0x40);
    (hart.x[7], hart.eei.env().reads.clone())
}

#[test]
fn loads_64() {
    // the byte at address a holds a modulo 256
    assert_eq!(load64(RV64I::LB, 0x80, 0), (-0x80, vec![(0x80, 1)]));
    assert_eq!(load64(RV64I::LB, 0x20, 4), (0x24, vec![(0x24, 1)]));
    assert_eq!(load64(RV64I::LBU, 0x80, 4), (0x84, vec![(0x84, 1)]));
    assert_eq!(load64(RV64I::LH, 0x80, 0), (0x8180u16 as i16 as i64, vec![(0x80, 2)]));
    assert_eq!(load64(RV64I::LHU, 0x80, 0), (0x8180, vec![(0x80, 2)]));
    assert_eq!(load64(RV64I::LW, 0x80, 0), (0x8382_8180u32 as i32 as i64, vec![(0x80, 4)]));
    assert_eq!(load64(RV64I::LWU, 0x80, 0), (0x8382_8180, vec![(0x80, 4)]));
    assert_eq!(
        load64(RV64I::LD, 0x88, -8),
        (0x8786_8584_8382_8180u64 as i64, vec![(0x80, 8)])
    );
    assert_eq!(load64(RV64I::LD, 0x0, 0x10), (0x1716_1514_1312_1110, vec![(0x10, 8)]));
    assert_eq!(load64(RV64I::LBU, -0x80, 0), (0x80, vec![(0xFFFF_FFFF_FFFF_FF80, 1)]));
    for op in [RV64I::LB, RV64I::LBU, RV64I::LH, RV64I::LHU, RV64I::LW, RV64I::LWU, RV64I::LD] {
        let mut hart = wide_hart("");
        hart.x[5] = 0x80;
        hart.inst = wide(Isa::UNKNOWN, 0x100, 0, 5, 0, 0);
        let before = hart.x;
        op(&mut hart);
        assert_eq!(hart.x, before);
        assert_eq!(hart.eei.env().traps, [Traps::IllegalInstruction]);
        assert!(hart.eei.env().reads.is_empty());
        let mut hart = wide_hart("");
        hart.x[5] = 0x80;
        hart.inst = wide(Isa::UNKNOWN, 0x100, 7, 5, 0, 2);
        let before = hart.x;
        op(&mut hart);
        assert_eq!(hart.x, before);
        assert_eq!(hart.eei.env().traps, [Traps::InstructionAddressMisaligned]);
        assert!(hart.eei.env().reads.is_empty());
    }
}

#[test]
fn stores_64() {
    let mut hart = wide_hart("");
    hart.x[5] = 0x90;
    hart.x[6] = 0x1234_5678_9ABC_DEF0;
    let before = hart.x;
    hart.inst = wide(Isa::SB, 0x100, 0, 5, 6, -16);
    hart.SB();
    assert_eq!(&hart.eei.env().memory[0x80..0x82], &[0xF0, 0x81]);
    hart.inst = wide(Isa::SH, 0x100, 0, 5, 6, -12);
    hart.SH();
    assert_eq!(&hart.eei.env().memory[0x84..0x87], &[0xF0, 0xDE, 0x86]);
    hart.inst = wide(Isa::SW, 0x100, 0, 5, 6, -8);
    hart.SW();
    assert_eq!(&hart.eei.env().memory[0x88..0x8D], &[0xF0, 0xDE, 0xBC, 0x9A, 0x8C]);
    hart.inst = wide(Isa::SD, 0x100, 0, 5, 6, 0);
    hart.SD();
    assert_eq!(
        &hart.eei.env().memory[0x90..0x99],
        &[0xF0, 0xDE, 0xBC, 0x9A, 0x78, 0x56, 0x34, 0x12, 0x98]
    );
    assert_eq!(hart.eei.env().writes, [(0x80, 1), (0x84, 2), (0x88, 4), (0x90, 8)]);
    assert_eq!(hart.x, before);
    assert!(hart.eei.env().traps.is_empty());
    hart.inst = wide(Isa::SD, 0x100, 0, 5, 6, 2);
    hart.SD();
    assert_eq!(hart.eei.env().traps, [Traps::InstructionAddressMisaligned]);
    assert_eq!(hart.eei.env().writes.len(), 4);
}

#[test]
fn traps_and_dispatch_64() {
    let mut hart = wide_hart("");
    hart.EBREAK();
    hart.ECALL();
    hart.UNKNOWN();
    hart.FENCE();
    assert_eq!(
        hart.eei.env().traps,
        [Traps::Breakpoint, Traps::SystemCall, Traps::IllegalInstruction]
    );
    hart.x[5] = 0x1_0000_0000;
    hart.x[6] = 3;
    hart.inst = wide(Isa::ADD, 0x100, 7, 5, 6, 9);
    hart.execute(Isa::ADD);
    assert_eq!(hart.x[7], 0x1_0000_0003);
    hart.execute(Isa::ADDW);
    assert_eq!(hart.x[7], 3);
    hart.execute(Isa::ADDIW);
    assert_eq!(hart.x[7], 9);
    hart.execute(Isa::MULW);
    assert_eq!(hart.x[7], 0);
    hart.execute(Isa::REMUW);
    assert_eq!(hart.x[7], 0);
    hart.execute(Isa::DIVUW);
    assert_eq!(hart.x[7], 0);
    assert_eq!(hart.eei.env().traps.len(), 3);
    hart.execute(Isa::UNKNOWN);
    hart.execute(Isa::_SIZE);
    assert_eq!(hart.eei.env().traps.len(), 5);
    assert_eq!(hart.x[7], 0);
}
