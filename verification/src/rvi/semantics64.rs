//! What a 64-bit hart does, as functions on its state.
//!
//! [`Hart64`] is the state of a hart. [`Hart64::execute`] gives the state
//! after one instruction, and [`Hart64::step`] the state after one fetch,
//! decode and execute. What the environment answers is an argument of both:
//! they say what the hart does for every answer.
use vstd::prelude::*;
use crate::common::decoder::instruction_length;
use crate::common::instruction::Instruction;
use crate::common::isa::{dispatch_table, slot_entry, Isa, IsaEntry};
use crate::public::Traps;
use crate::rvi::assembler::assembles;
use crate::rvi::arithmetic::{
    div32,
    div64,
    divu32,
    divu64,
    mulh64,
    mulhsu64,
    mulhu64,
    rem32,
    rem64,
    remu32,
    remu64,
    shamt32,
    shamt64,
};
use crate::rvi::trace::{Event, Width};

verus! {

/// The state of a 64-bit hart.
pub struct Hart64 {
    /// The integer registers.
    pub x: Seq<i64>,
    /// The program counter: the address of the next instruction.
    pub pc: u64,
    /// The instruction that is executed.
    pub inst: Instruction,
    /// The letters of the enabled extensions.
    pub ext: Seq<char>,
    /// Whether registers are written with their ABI names.
    pub abi_name: bool,
    /// The dispatch table.
    pub isa: Seq<IsaEntry>,
    /// What the hart has asked of its environment, the first request first.
    pub trace: Seq<Event>,
}

/// What a load writes to its register: the low bits of `data`, as wide as the
/// access, sign-extended or zero-extended to 64 bits.
pub open spec fn extend(width: Width, signed: bool, data: u64) -> i64 {
    match width {
        Width::Byte => if signed {
            data as u8 as i8 as i64
        } else {
            data as u8 as i64
        },
        Width::Half => if signed {
            data as u16 as i16 as i64
        } else {
            data as u16 as i64
        },
        Width::Word => if signed {
            data as u32 as i32 as i64
        } else {
            data as u32 as i64
        },
        Width::Double => data as i64,
    }
}

/// What a store writes to memory: the low bits of `v`, as wide as the access.
pub open spec fn truncate(width: Width, v: i64) -> u64 {
    match width {
        Width::Byte => v as u8 as u64,
        Width::Half => v as u16 as u64,
        Width::Word => v as u32 as u64,
        Width::Double => v as u64,
    }
}

impl Hart64 {
    /// Whether instructions may start at every even address.
    pub open spec fn compressed(self) -> bool {
        self.ext.contains('C')
    }

    /// Whether multiplication and division are enabled.
    pub open spec fn muldiv(self) -> bool {
        self.ext.contains('M')
    }

    /// The state of a hart right after its construction: register 0 holds
    /// zero, no instruction has been decoded and nothing has been asked of
    /// the environment.
    pub open spec fn initial(self, x: Seq<i64>, pc: u64, ext: Seq<char>, abi_name: bool) -> bool {
        &&& self.x == x.update(0, 0i64)
        &&& self.pc == pc
        &&& self.inst == Instruction::spec_empty(Isa::UNKNOWN, 0)
        &&& self.ext == ext
        &&& self.abi_name == abi_name
        &&& dispatch_table(self.isa, true, ext.contains('M'))
        &&& self.trace == Seq::<Event>::empty()
    }

    /// The invariant of a hart: it has 16 or 32 registers, register 0 holds
    /// zero, the operands of the instruction are register numbers, and the
    /// dispatch table is the one of the enabled extensions.
    pub open spec fn wf(self) -> bool {
        &&& self.x.len() == 16 || self.x.len() == 32
        &&& self.x[0] == 0
        &&& self.inst.wf()
        &&& dispatch_table(self.isa, true, self.muldiv())
    }

    /// The instruction can be executed: its operands name registers that
    /// this hart has.
    pub open spec fn ready(self) -> bool {
        &&& self.inst.rd < self.x.len()
        &&& self.inst.rs1 < self.x.len()
        &&& self.inst.rs2 < self.x.len()
    }

    /// An address is misaligned if it is odd, or, without the extension `C`,
    /// if it is no multiple of 4. The rule is that of instruction addresses;
    /// the addresses of loads and stores are held to it too.
    pub open spec fn misaligned(self, addr: u64) -> bool {
        if self.compressed() {
            addr % 2 != 0
        } else {
            addr % 4 != 0
        }
    }

    /// The value of the first source register.
    pub open spec fn rs1(self) -> i64 {
        self.x[self.inst.rs1 as int]
    }

    /// The value of the second source register.
    pub open spec fn rs2(self) -> i64 {
        self.x[self.inst.rs2 as int]
    }

    /// The low word of the first source register.
    pub open spec fn word1(self) -> i32 {
        self.rs1() as i32
    }

    /// The low word of the second source register.
    pub open spec fn word2(self) -> i32 {
        self.rs2() as i32
    }

    /// The immediate, sign-extended to 64 bits.
    pub open spec fn imm(self) -> i64 {
        self.inst.imm as i64
    }

    /// The value that the last request read from memory, zero where the last
    /// request was no load. After an instruction that has read memory this is
    /// what the environment answered.
    pub open spec fn loaded(self) -> u64 {
        if self.trace.len() > 0 && self.trace.last() is Load {
            self.trace.last()->Load_data
        } else {
            0
        }
    }

    /// The destination register gets `v`. Register 0 is never written.
    pub open spec fn write_rd(self, v: i64) -> Hart64 {
        if self.inst.rd == 0 {
            self
        } else {
            Hart64 { x: self.x.update(self.inst.rd as int, v), ..self }
        }
    }

    /// A trap is reported. Nothing else changes.
    pub open spec fn raise(self, kind: Traps) -> Hart64 {
        Hart64 { trace: self.trace.push(Event::Trap { kind }), ..self }
    }

    /// The address of the instruction plus the immediate: the target of
    /// branches and of `JAL`.
    pub open spec fn target(self) -> u64 {
        self.inst.pc.wrapping_add_signed(self.imm())
    }

    /// The first source register plus the immediate, as an address: the
    /// address of loads and stores, and the target of `JALR` before its
    /// lowest bit is cleared.
    pub open spec fn address(self) -> u64 {
        (self.rs1() as u64).wrapping_add_signed(self.imm())
    }

    /// The address of the next instruction in memory, as a register value.
    pub open spec fn link(self) -> i64 {
        self.inst.pc.wrapping_add(4) as i64
    }

    /// A branch: where the condition holds, the hart goes on at the target,
    /// unless the target is misaligned, which is a trap. Where it does not
    /// hold, nothing changes.
    pub open spec fn branch(self, taken: bool) -> Hart64 {
        if !taken {
            self
        } else if self.misaligned(self.target()) {
            self.raise(Traps::InstructionAddressMisaligned)
        } else {
            Hart64 { pc: self.target(), ..self }
        }
    }

    /// A jump: the hart goes on at `target` and the destination register
    /// gets the address of the next instruction in memory. A misaligned
    /// target is a trap, and then the register is not written either.
    pub open spec fn jump(self, target: u64) -> Hart64 {
        if self.misaligned(target) {
            self.raise(Traps::InstructionAddressMisaligned)
        } else {
            Hart64 { pc: target, ..self }.write_rd(self.link())
        }
    }

    /// A load: the environment is asked for the memory at the address, and
    /// the destination register gets its answer `mem`, extended. A load to
    /// register 0 is an illegal instruction and a misaligned address is a
    /// trap; in both cases memory is not read.
    pub open spec fn load(self, width: Width, signed: bool, mem: u64) -> Hart64 {
        if self.inst.rd == 0 {
            self.raise(Traps::IllegalInstruction)
        } else if self.misaligned(self.address()) {
            self.raise(Traps::InstructionAddressMisaligned)
        } else {
            Hart64 {
                trace: self.trace.push(Event::Load { width, addr: self.address(), data: mem }),
                ..self
            }.write_rd(extend(width, signed, mem))
        }
    }

    /// A store: the low bits of the second source register are written to
    /// memory at the address. A misaligned address is a trap, and then
    /// memory is not written.
    pub open spec fn store(self, width: Width) -> Hart64 {
        if self.misaligned(self.address()) {
            self.raise(Traps::InstructionAddressMisaligned)
        } else {
            Hart64 {
                trace: self.trace.push(
                    Event::Store {
                        width,
                        addr: self.address(),
                        data: truncate(width, self.rs2()),
                    },
                ),
                ..self
            }
        }
    }

    /// The state after the instruction `self.inst` was executed as `isa`.
    /// `mem` is what the environment answers if the instruction reads memory.
    ///
    /// Arithmetic wraps round. An instruction on words takes the low words
    /// of its operands and sign-extends its result. `UNKNOWN` is an illegal
    /// instruction.
    pub open spec fn execute(self, isa: Isa, mem: u64) -> Hart64 {
        match isa {
            Isa::ADD => self.write_rd(self.rs1().wrapping_add(self.rs2())),
            Isa::ADDI => self.write_rd(self.rs1().wrapping_add(self.imm())),
            Isa::AND => self.write_rd(self.rs1() & self.rs2()),
            Isa::ANDI => self.write_rd(self.rs1() & self.imm()),
            Isa::AUIPC => self.write_rd(self.target() as i64),
            Isa::BEQ => self.branch(self.rs1() == self.rs2()),
            Isa::BGE => self.branch(self.rs1() >= self.rs2()),
            Isa::BGEU => self.branch(self.rs1() as u64 >= self.rs2() as u64),
            Isa::BLT => self.branch(self.rs1() < self.rs2()),
            Isa::BLTU => self.branch((self.rs1() as u64) < self.rs2() as u64),
            Isa::BNE => self.branch(self.rs1() != self.rs2()),
            Isa::EBREAK => self.raise(Traps::Breakpoint),
            Isa::ECALL => self.raise(Traps::SystemCall),
            Isa::FENCE => self,
            Isa::JAL => self.jump(self.target()),
            Isa::JALR => self.jump(self.address() & !1u64),
            Isa::LB => self.load(Width::Byte, true, mem),
            Isa::LBU => self.load(Width::Byte, false, mem),
            Isa::LH => self.load(Width::Half, true, mem),
            Isa::LHU => self.load(Width::Half, false, mem),
            Isa::LUI => self.write_rd(self.imm()),
            Isa::LW => self.load(Width::Word, true, mem),
            Isa::OR => self.write_rd(self.rs1() | self.rs2()),
            Isa::ORI => self.write_rd(self.rs1() | self.imm()),
            Isa::SB => self.store(Width::Byte),
            Isa::SH => self.store(Width::Half),
            Isa::SLL => self.write_rd(self.rs1() << shamt64(self.rs2())),
            Isa::SLLI => self.write_rd(self.rs1() << shamt64(self.imm())),
            Isa::SLT => self.write_rd(if self.rs1() < self.rs2() { 1 } else { 0 }),
            Isa::SLTI => self.write_rd(if self.rs1() < self.imm() { 1 } else { 0 }),
            Isa::SLTIU => self.write_rd(if (self.rs1() as u64) < self.imm() as u64 { 1 } else { 0 }),
            Isa::SLTU => self.write_rd(if (self.rs1() as u64) < self.rs2() as u64 { 1 } else { 0 }),
            Isa::SRA => self.write_rd(self.rs1() >> shamt64(self.rs2())),
            Isa::SRAI => self.write_rd(self.rs1() >> shamt64(self.imm())),
            Isa::SRL => self.write_rd(((self.rs1() as u64) >> shamt64(self.rs2())) as i64),
            Isa::SRLI => self.write_rd(((self.rs1() as u64) >> shamt64(self.imm())) as i64),
            Isa::SUB => self.write_rd(self.rs1().wrapping_sub(self.rs2())),
            Isa::SW => self.store(Width::Word),
            Isa::XOR => self.write_rd(self.rs1() ^ self.rs2()),
            Isa::XORI => self.write_rd(self.rs1() ^ self.imm()),
            Isa::ADDIW => self.write_rd(self.word1().wrapping_add(self.inst.imm) as i64),
            Isa::ADDW => self.write_rd(self.word1().wrapping_add(self.word2()) as i64),
            Isa::LD => self.load(Width::Double, true, mem),
            Isa::LWU => self.load(Width::Word, false, mem),
            Isa::SD => self.store(Width::Double),
            Isa::SLLIW => self.write_rd((self.word1() << shamt32(self.inst.imm)) as i64),
            Isa::SLLW => self.write_rd((self.word1() << shamt32(self.word2())) as i64),
            Isa::SRAIW => self.write_rd((self.word1() >> shamt32(self.inst.imm)) as i64),
            Isa::SRAW => self.write_rd((self.word1() >> shamt32(self.word2())) as i64),
            Isa::SRLIW => self.write_rd(
                (((self.word1() as u32) >> shamt32(self.inst.imm)) as i32) as i64,
            ),
            Isa::SRLW => self.write_rd(
                (((self.word1() as u32) >> shamt32(self.word2())) as i32) as i64,
            ),
            Isa::SUBW => self.write_rd(self.word1().wrapping_sub(self.word2()) as i64),
            Isa::DIV => self.write_rd(div64(self.rs1(), self.rs2())),
            Isa::DIVU => self.write_rd(divu64(self.rs1(), self.rs2())),
            Isa::MUL => self.write_rd(self.rs1().wrapping_mul(self.rs2())),
            Isa::MULH => self.write_rd(mulh64(self.rs1(), self.rs2())),
            Isa::MULHSU => self.write_rd(mulhsu64(self.rs1(), self.rs2())),
            Isa::MULHU => self.write_rd(mulhu64(self.rs1(), self.rs2())),
            Isa::REM => self.write_rd(rem64(self.rs1(), self.rs2())),
            Isa::REMU => self.write_rd(remu64(self.rs1(), self.rs2())),
            Isa::DIVUW => self.write_rd(divu32(self.word1(), self.word2()) as i64),
            Isa::DIVW => self.write_rd(div32(self.word1(), self.word2()) as i64),
            Isa::MULW => self.write_rd(self.word1().wrapping_mul(self.word2()) as i64),
            Isa::REMUW => self.write_rd(remu32(self.word1(), self.word2()) as i64),
            Isa::REMW => self.write_rd(rem32(self.word1(), self.word2()) as i64),
            Isa::UNKNOWN | Isa::_SIZE => self.raise(Traps::IllegalInstruction),
        }
    }

    /// The state after one step: the opcode at the program counter is
    /// fetched, and the program counter moves on by 4. An opcode that starts
    /// an instruction of 4 bytes is classified, decoded by the decoder of
    /// its slot in the dispatch table and executed as the mnemonic of that
    /// slot; where an operand names a register that the hart does not have,
    /// the opcode is an illegal instruction. For an opcode of another length
    /// nothing more happens.
    ///
    /// `opcode` is what the environment answers to the fetch, and `mem` what
    /// it answers if the instruction reads memory.
    pub open spec fn step(self, opcode: u32, mem: u64) -> Hart64 {
        let fetched = Hart64 {
            pc: self.pc.wrapping_add(4),
            trace: self.trace.push(Event::Fetch { addr: self.pc, opcode }),
            ..self
        };
        if instruction_length(opcode as u16) != 4 {
            fetched
        } else {
            let isa = Isa::classify(opcode);
            let entry = self.isa[isa.index()];
            let decoded = Hart64 { inst: entry.spec_decode(isa, self.pc, opcode), ..fetched };
            if decoded.ready() {
                decoded.execute(entry.isa, mem)
            } else {
                decoded.raise(Traps::IllegalInstruction)
            }
        }
    }

    /// The state after one step for each pair of `answers`, in their order.
    /// A pair holds what the environment answers to the fetch of the step,
    /// and what it answers if the instruction of the step reads memory.
    pub open spec fn run(self, answers: Seq<(u32, u64)>) -> Hart64
        decreases answers.len(),
    {
        if answers.len() == 0 {
            self
        } else {
            self.run(answers.drop_last()).step(answers.last().0, answers.last().1)
        }
    }
}

/// What the environment answers matters to the loads alone.
pub proof fn lemma_execute_ignores_memory(hart: Hart64, isa: Isa, mem: u64, other: u64)
    requires
        !isa.is_load(),
    ensures
        hart.execute(isa, mem) == hart.execute(isa, other),
{
}

/// Only branches and jumps move the program counter.
pub proof fn lemma_execute_keeps_pc(hart: Hart64, isa: Isa, mem: u64)
    requires
        !isa.is_control_flow(),
    ensures
        hart.execute(isa, mem).pc == hart.pc,
{
}

/// Register 0 keeps its value whatever is executed, and no register is
/// added or lost.
pub proof fn lemma_execute_keeps_x0(hart: Hart64, isa: Isa, mem: u64)
    requires
        hart.x.len() > 0,
        hart.ready(),
    ensures
        hart.execute(isa, mem).x.len() == hart.x.len(),
        hart.execute(isa, mem).x[0] == hart.x[0],
{
}

/// An instruction makes at most one request of the environment, and leaves
/// the instruction, the configuration and the dispatch table as they are.
pub proof fn lemma_execute_frame(hart: Hart64, isa: Isa, mem: u64)
    ensures
        hart.execute(isa, mem).trace == hart.trace || hart.execute(isa, mem).trace
            == hart.trace.push(hart.execute(isa, mem).trace.last()),
        hart.execute(isa, mem).inst == hart.inst,
        hart.execute(isa, mem).ext == hart.ext,
        hart.execute(isa, mem).abi_name == hart.abi_name,
        hart.execute(isa, mem).isa == hart.isa,
{
}

/// The invariant of a hart holds after every instruction.
pub proof fn lemma_execute_keeps_invariant(hart: Hart64, isa: Isa, mem: u64)
    requires
        hart.wf(),
        hart.ready(),
    ensures
        hart.execute(isa, mem).wf(),
{
    lemma_execute_keeps_x0(hart, isa, mem);
    lemma_execute_frame(hart, isa, mem);
}

/// The invariant of a hart holds after every step, whatever the environment
/// answers: register 0 holds zero after any sequence of steps.
pub proof fn lemma_step_keeps_invariant(hart: Hart64, opcode: u32, mem: u64)
    requires
        hart.wf(),
    ensures
        hart.step(opcode, mem).wf(),
{
    if instruction_length(opcode as u16) == 4 {
        let isa = Isa::classify(opcode);
        let entry = hart.isa[isa.index()];
        let decoded = Hart64 {
            pc: hart.pc.wrapping_add(4),
            inst: entry.spec_decode(isa, hart.pc, opcode),
            trace: hart.trace.push(Event::Fetch { addr: hart.pc, opcode }),
            ..hart
        };
        assert(decoded.inst.wf());
        if decoded.ready() {
            lemma_execute_keeps_invariant(decoded, entry.isa, mem);
        }
    }
}

/// The invariant of a hart holds after any sequence of steps: register 0
/// holds zero at all times.
pub proof fn lemma_run_keeps_invariant(hart: Hart64, answers: Seq<(u32, u64)>)
    requires
        hart.wf(),
    ensures
        hart.run(answers).wf(),
        hart.run(answers).x[0] == 0,
    decreases answers.len(),
{
    if answers.len() > 0 {
        lemma_run_keeps_invariant(hart, answers.drop_last());
        lemma_step_keeps_invariant(
            hart.run(answers.drop_last()),
            answers.last().0,
            answers.last().1,
        );
    }
}

/// A step on `ADDI x0, x0, 0` moves the program counter on by 4 and changes
/// no register.
pub proof fn lemma_nop(hart: Hart64, mem: u64)
    requires
        hart.wf(),
    ensures
        hart.step(0x0000_0013, mem) == (Hart64 {
            pc: hart.pc.wrapping_add(4),
            inst: Instruction { inst: Isa::ADDI, pc: hart.pc, rd: 0, rs1: 0, rs2: 0, imm: 0 },
            trace: hart.trace.push(Event::Fetch { addr: hart.pc, opcode: 0x0000_0013 }),
            ..hart
        }),
{
    assert(Isa::classify(0x0000_0013) == Isa::ADDI);
    assert(hart.isa[Isa::ADDI.index()] == slot_entry(Isa::ADDI, true, hart.muldiv()));
}

/// A step on the opcode of an instruction that the hart has, with registers
/// that it has, executes that instruction with the operands it was
/// assembled from.
pub proof fn lemma_step_assembled(
    hart: Hart64,
    word: u32,
    isa: Isa,
    rd: u8,
    rs1: u8,
    rs2: u8,
    imm: int,
    mem: u64,
)
    requires
        hart.wf(),
        assembles(word, isa, rd, rs1, rs2, imm),
        isa.enabled(true, hart.muldiv()),
        rd < hart.x.len(),
        rs1 < hart.x.len(),
        rs2 < hart.x.len(),
    ensures
        hart.step(word, mem) == (Hart64 {
            pc: hart.pc.wrapping_add(4),
            inst: Instruction { inst: isa, pc: hart.pc, rd, rs1, rs2, imm: imm as i32 },
            trace: hart.trace.push(Event::Fetch { addr: hart.pc, opcode: word }),
            ..hart
        }).execute(isa, mem),
{
    assert(hart.isa[isa.index()] == slot_entry(isa, true, hart.muldiv()));
}

/// A step on an opcode of 4 bytes whose instruction the hart does not have
/// is an illegal instruction, and no operand is decoded.
pub proof fn lemma_step_disabled(hart: Hart64, word: u32, mem: u64)
    requires
        hart.wf(),
        instruction_length(word as u16) == 4,
        !Isa::classify(word).enabled(true, hart.muldiv()),
    ensures
        hart.step(word, mem) == (Hart64 {
            pc: hart.pc.wrapping_add(4),
            inst: Instruction::spec_empty(Isa::classify(word), hart.pc),
            trace: hart.trace.push(Event::Fetch { addr: hart.pc, opcode: word }),
            ..hart
        }).raise(Traps::IllegalInstruction),
{
    let isa = Isa::classify(word);
    assert(hart.isa[isa.index()] == slot_entry(isa, true, hart.muldiv()));
}

/// A step on the opcode of an instruction whose operands name a register
/// that the hart does not have is an illegal instruction: no register is
/// read or written.
pub proof fn lemma_step_without_register(
    hart: Hart64,
    word: u32,
    isa: Isa,
    rd: u8,
    rs1: u8,
    rs2: u8,
    imm: int,
    mem: u64,
)
    requires
        hart.wf(),
        assembles(word, isa, rd, rs1, rs2, imm),
        isa.enabled(true, hart.muldiv()),
        rd >= hart.x.len() || rs1 >= hart.x.len() || rs2 >= hart.x.len(),
    ensures
        hart.step(word, mem) == (Hart64 {
            pc: hart.pc.wrapping_add(4),
            inst: Instruction { inst: isa, pc: hart.pc, rd, rs1, rs2, imm: imm as i32 },
            trace: hart.trace.push(Event::Fetch { addr: hart.pc, opcode: word }),
            ..hart
        }).raise(Traps::IllegalInstruction),
{
    assert(hart.isa[isa.index()] == slot_entry(isa, true, hart.muldiv()));
}

} // verus!
