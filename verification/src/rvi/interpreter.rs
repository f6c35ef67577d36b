//! The instructions of a 32-bit hart, and its single step.
//!
//! Every instruction is a method of the hart under the name of its mnemonic.
//! It executes `self.inst`, whose operands must name registers of the hart,
//! and its contract gives the state after it by the function `execute` of
//! the model of the hart, [`crate::rvi::semantics::Hart32`].
//! An instruction writes no register where `rd` is 0, and one that asks
//! nothing of the environment leaves the environment as it is.
use vstd::prelude::*;
use crate::common::decoder::get_instruction_length;
use crate::common::isa::Isa;
use crate::common::types::{As, AsSigned, AsUnsigned};
use crate::public::{ExecutionEnvironmentInterface, Traps};
use crate::rvi::arithmetic::{
    div32,
    divu32,
    lemma_shamt_bound,
    mulh32,
    mulhsu32,
    mulhu32,
    rem32,
    remu32,
};
use crate::rvi::semantics::{lemma_execute_keeps_invariant, lemma_step_keeps_invariant};
use crate::rvi::RV32I;

verus! {

impl<EEI: ExecutionEnvironmentInterface, const N: usize> RV32I<EEI, N> {
    /// Executes a single instruction on the hart: fetches the opcode at the
    /// program counter, moves the program counter on by 4, and decodes and
    /// executes the opcode if it starts an instruction of 4 bytes. An
    /// instruction on a register that the hart does not have is illegal.
    ///
    /// Returns the opcode that was fetched.
    pub fn single_step(&mut self) -> (opcode: u32)
        ensures
            final(self)@ == old(self)@.step(opcode, final(self)@.loaded()),
            old(self)@.wf() ==> final(self)@.wf(),
    {
        proof {
            if self@.wf() {
                assert forall|opcode: u32, mem: u64| #[trigger] self@.step(opcode, mem).wf() by {
                    lemma_step_keeps_invariant(self@, opcode, mem);
                }
            }
        }
        let pc = self.pc;
        self.pc = pc.wrapping_add(4);
        let opcode = self.eei.get_opcode_32(pc as u64);
        if get_instruction_length(opcode as u16) == 4 {
            let isa = Isa::from_opcode_32(opcode);
            let entry = self.isa[isa.ordinal()];
            self.inst = entry.decode32(isa, pc, opcode);
            if self.ready() {
                self.execute(entry.isa);
            } else {
                self.UNKNOWN();
            }
        }
        opcode
    }

    /// Executes the instruction `self.inst` as the mnemonic `isa`: the
    /// dispatch from a mnemonic to its effect.
    pub fn execute(&mut self, isa: Isa)
        requires
            old(self)@.ready(),
        ensures
            final(self)@ == old(self)@.execute(isa, final(self)@.loaded()),
            final(self)@.trace.len() == old(self)@.trace.len() ==> final(self).eei == old(self).eei,
            old(self)@.wf() ==> final(self)@.wf(),
    {
        proof {
            if self@.wf() {
                assert forall|mem: u64| #[trigger] self@.execute(isa, mem).wf() by {
                    lemma_execute_keeps_invariant(self@, isa, mem);
                }
            }
        }
        match isa {
            Isa::ADD => self.ADD(),
            Isa::ADDI => self.ADDI(),
            Isa::AND => self.AND(),
            Isa::ANDI => self.ANDI(),
            Isa::AUIPC => self.AUIPC(),
            Isa::BEQ => self.BEQ(),
            Isa::BGE => self.BGE(),
            Isa::BGEU => self.BGEU(),
            Isa::BLT => self.BLT(),
            Isa::BLTU => self.BLTU(),
            Isa::BNE => self.BNE(),
            Isa::EBREAK => self.EBREAK(),
            Isa::ECALL => self.ECALL(),
            Isa::FENCE => self.FENCE(),
            Isa::JAL => self.JAL(),
            Isa::JALR => self.JALR(),
            Isa::LB => self.LB(),
            Isa::LBU => self.LBU(),
            Isa::LH => self.LH(),
            Isa::LHU => self.LHU(),
            Isa::LUI => self.LUI(),
            Isa::LW => self.LW(),
            Isa::OR => self.OR(),
            Isa::ORI => self.ORI(),
            Isa::SB => self.SB(),
            Isa::SH => self.SH(),
            Isa::SLL => self.SLL(),
            Isa::SLLI => self.SLLI(),
            Isa::SLT => self.SLT(),
            Isa::SLTI => self.SLTI(),
            Isa::SLTIU => self.SLTIU(),
            Isa::SLTU => self.SLTU(),
            Isa::SRA => self.SRA(),
            Isa::SRAI => self.SRAI(),
            Isa::SRL => self.SRL(),
            Isa::SRLI => self.SRLI(),
            Isa::SUB => self.SUB(),
            Isa::SW => self.SW(),
            Isa::XOR => self.XOR(),
            Isa::XORI => self.XORI(),
            Isa::DIV => self.DIV(),
            Isa::DIVU => self.DIVU(),
            Isa::MUL => self.MUL(),
            Isa::MULH => self.MULH(),
            Isa::MULHSU => self.MULHSU(),
            Isa::MULHU => self.MULHU(),
            Isa::REM => self.REM(),
            Isa::REMU => self.REMU(),
            _ => self.UNKNOWN(),
        }
    }

    /// What is no instruction of this hart: an illegal instruction.
    pub fn UNKNOWN(&mut self)
        ensures
            final(self)@ == old(self)@.raise(Traps::IllegalInstruction),
    {
        self.eei.trap(Traps::IllegalInstruction);
    }

    /// `rd = rs1 + rs2`, wrapping round.
    pub fn ADD(&mut self)
        requires
            old(self)@.ready(),
        ensures
            final(self)@ == old(self)@.execute(Isa::ADD, 0),
            final(self).eei == old(self).eei,
    {
        if self.inst.rd != 0 {
            let rs1 = self.x[self.inst.rs1 as usize];
            let rs2 = self.x[self.inst.rs2 as usize];
            self.x[self.inst.rd as usize] = rs1.wrapping_add(rs2);
        }
    }

    /// `rd = rs1 + imm`, wrapping round.
    pub fn ADDI(&mut self)
        requires
            old(self)@.ready(),
        ensures
            final(self)@ == old(self)@.execute(Isa::ADDI, 0),
            final(self).eei == old(self).eei,
    {
        if self.inst.rd != 0 {
            let rs1 = self.x[self.inst.rs1 as usize];
            let imm = self.inst.imm;
            self.x[self.inst.rd as usize] = rs1.wrapping_add(imm);
        }
    }

    /// `rd = rs1 & rs2`.
    pub fn AND(&mut self)
        requires
            old(self)@.ready(),
        ensures
            final(self)@ == old(self)@.execute(Isa::AND, 0),
            final(self).eei == old(self).eei,
    {
        if self.inst.rd != 0 {
            let rs1 = self.x[self.inst.rs1 as usize];
            let rs2 = self.x[self.inst.rs2 as usize];
            self.x[self.inst.rd as usize] = rs1 & rs2;
        }
    }

    /// `rd = rs1 & imm`.
    pub fn ANDI(&mut self)
        requires
            old(self)@.ready(),
        ensures
            final(self)@ == old(self)@.execute(Isa::ANDI, 0),
            final(self).eei == old(self).eei,
    {
        if self.inst.rd != 0 {
            let rs1 = self.x[self.inst.rs1 as usize];
            let imm = self.inst.imm;
            self.x[self.inst.rd as usize] = rs1 & imm;
        }
    }

    /// `rd = pc + imm`, where `pc` is the address of the instruction.
    pub fn AUIPC(&mut self)
        requires
            old(self)@.ready(),
        ensures
            final(self)@ == old(self)@.execute(Isa::AUIPC, 0),
            final(self).eei == old(self).eei,
    {
        if self.inst.rd != 0 {
            let imm = self.inst.imm;
            self.x[self.inst.rd as usize] = self.inst.pc.wrapping_add_signed(imm).as_s();
        }
    }

    /// Branches to `pc + imm` if `rs1 == rs2`.
    pub fn BEQ(&mut self)
        requires
            old(self)@.ready(),
        ensures
            final(self)@ == old(self)@.execute(Isa::BEQ, 0),
            final(self)@.trace.len() == old(self)@.trace.len() ==> final(self).eei == old(self).eei,
    {
        let rs1 = self.x[self.inst.rs1 as usize];
        let rs2 = self.x[self.inst.rs2 as usize];
        if rs1 == rs2 {
            let pc = self.inst.pc.wrapping_add_signed(self.inst.imm);
            if self.is_misaligned(pc) {
                self.eei.trap(Traps::InstructionAddressMisaligned);
            } else {
                self.pc = pc;
            }
        }
    }

    /// Branches to `pc + imm` if `rs1 >= rs2`, as signed numbers.
    pub fn BGE(&mut self)
        requires
            old(self)@.ready(),
        ensures
            final(self)@ == old(self)@.execute(Isa::BGE, 0),
            final(self)@.trace.len() == old(self)@.trace.len() ==> final(self).eei == old(self).eei,
    {
        let rs1 = self.x[self.inst.rs1 as usize];
        let rs2 = self.x[self.inst.rs2 as usize];
        if rs1 >= rs2 {
            let pc = self.inst.pc.wrapping_add_signed(self.inst.imm);
            if self.is_misaligned(pc) {
                self.eei.trap(Traps::InstructionAddressMisaligned);
            } else {
                self.pc = pc;
            }
        }
    }

    /// Branches to `pc + imm` if `rs1 >= rs2`, as unsigned numbers.
    pub fn BGEU(&mut self)
        requires
            old(self)@.ready(),
        ensures
            final(self)@ == old(self)@.execute(Isa::BGEU, 0),
            final(self)@.trace.len() == old(self)@.trace.len() ==> final(self).eei == old(self).eei,
    {
        let rs1 = self.x[self.inst.rs1 as usize];
        let rs2 = self.x[self.inst.rs2 as usize];
        if rs1.as_u() >= rs2.as_u() {
            let pc = self.inst.pc.wrapping_add_signed(self.inst.imm);
            if self.is_misaligned(pc) {
                self.eei.trap(Traps::InstructionAddressMisaligned);
            } else {
                self.pc = pc;
            }
        }
    }

    /// Branches to `pc + imm` if `rs1 < rs2`, as signed numbers.
    pub fn BLT(&mut self)
        requires
            old(self)@.ready(),
        ensures
            final(self)@ == old(self)@.execute(Isa::BLT, 0),
            final(self)@.trace.len() == old(self)@.trace.len() ==> final(self).eei == old(self).eei,
    {
        let rs1 = self.x[self.inst.rs1 as usize];
        let rs2 = self.x[self.inst.rs2 as usize];
        if rs1 < rs2 {
            let pc = self.inst.pc.wrapping_add_signed(self.inst.imm);
            if self.is_misaligned(pc) {
                self.eei.trap(Traps::InstructionAddressMisaligned);
            } else {
                self.pc = pc;
            }
        }
    }

    /// Branches to `pc + imm` if `rs1 < rs2`, as unsigned numbers.
    pub fn BLTU(&mut self)
        requires
            old(self)@.ready(),
        ensures
            final(self)@ == old(self)@.execute(Isa::BLTU, 0),
            final(self)@.trace.len() == old(self)@.trace.len() ==> final(self).eei == old(self).eei,
    {
        let rs1 = self.x[self.inst.rs1 as usize];
        let rs2 = self.x[self.inst.rs2 as usize];
        if rs1.as_u() < rs2.as_u() {
            let pc = self.inst.pc.wrapping_add_signed(self.inst.imm);
            if self.is_misaligned(pc) {
                self.eei.trap(Traps::InstructionAddressMisaligned);
            } else {
                self.pc = pc;
            }
        }
    }

    /// Branches to `pc + imm` if `rs1 != rs2`.
    pub fn BNE(&mut self)
        requires
            old(self)@.ready(),
        ensures
            final(self)@ == old(self)@.execute(Isa::BNE, 0),
            final(self)@.trace.len() == old(self)@.trace.len() ==> final(self).eei == old(self).eei,
    {
        let rs1 = self.x[self.inst.rs1 as usize];
        let rs2 = self.x[self.inst.rs2 as usize];
        if rs1 != rs2 {
            let pc = self.inst.pc.wrapping_add_signed(self.inst.imm);
            if self.is_misaligned(pc) {
                self.eei.trap(Traps::InstructionAddressMisaligned);
            } else {
                self.pc = pc;
            }
        }
    }

    /// Reports a breakpoint.
    pub fn EBREAK(&mut self)
        ensures
            final(self)@ == old(self)@.execute(Isa::EBREAK, 0),
    {
        self.eei.trap(Traps::Breakpoint);
    }

    /// Reports a system call.
    pub fn ECALL(&mut self)
        ensures
            final(self)@ == old(self)@.execute(Isa::ECALL, 0),
    {
        self.eei.trap(Traps::SystemCall);
    }

    /// Orders memory accesses. A hart alone has nothing to order.
    pub fn FENCE(&mut self)
        ensures
            final(self)@ == old(self)@.execute(Isa::FENCE, 0),
            final(self).eei == old(self).eei,
    {
    }

    /// Jumps to `pc + imm` and writes the address of the next instruction to `rd`.
    /// A misaligned target is a trap: the hart neither jumps nor writes `rd`.
    pub fn JAL(&mut self)
        requires
            old(self)@.ready(),
        ensures
            final(self)@ == old(self)@.execute(Isa::JAL, 0),
            final(self)@.trace.len() == old(self)@.trace.len() ==> final(self).eei == old(self).eei,
    {
        let pc = self.inst.pc.wrapping_add_signed(self.inst.imm);
        if self.is_misaligned(pc) {
            self.eei.trap(Traps::InstructionAddressMisaligned);
        } else {
            self.pc = pc;
            if self.inst.rd != 0 {
                self.x[self.inst.rd as usize] = self.inst.pc.wrapping_add(4).as_s();
            }
        }
    }

    /// Jumps to `rs1 + imm` with its lowest bit cleared, and writes the address of
    /// the next instruction to `rd`. A misaligned target is a trap: the hart
    /// neither jumps nor writes `rd`.
    pub fn JALR(&mut self)
        requires
            old(self)@.ready(),
        ensures
            final(self)@ == old(self)@.execute(Isa::JALR, 0),
            final(self)@.trace.len() == old(self)@.trace.len() ==> final(self).eei == old(self).eei,
    {
        let rs1 = self.x[self.inst.rs1 as usize];
        let imm = self.inst.imm;
        let pc = rs1.as_u().wrapping_add_signed(imm) & !1;
        if self.is_misaligned(pc) {
            self.eei.trap(Traps::InstructionAddressMisaligned);
        } else {
            self.pc = pc;
            if self.inst.rd != 0 {
                self.x[self.inst.rd as usize] = self.inst.pc.wrapping_add(4).as_s();
            }
        }
    }

    /// Loads a byte and sign-extends it. A load to register 0 is an illegal
    /// instruction, and a misaligned address is a trap.
    pub fn LB(&mut self)
        requires
            old(self)@.ready(),
        ensures
            final(self)@ == old(self)@.execute(Isa::LB, final(self)@.loaded()),
            final(self)@.trace.len() == old(self)@.trace.len() ==> final(self).eei == old(self).eei,
    {
        if self.inst.rd == 0 {
            self.eei.trap(Traps::IllegalInstruction);
        } else {
            let rs1 = self.x[self.inst.rs1 as usize];
            let imm = self.inst.imm;
            let addr = rs1.as_u().wrapping_add_signed(imm);
            if self.is_misaligned(addr) {
                self.eei.trap(Traps::InstructionAddressMisaligned);
            } else {
                let data = self.eei.get_8(addr as u64);
                self.x[self.inst.rd as usize] = (data as i8) as i32;
            }
        }
    }

    /// Loads a byte and zero-extends it. A load to register 0 is an illegal
    /// instruction, and a misaligned address is a trap.
    pub fn LBU(&mut self)
        requires
            old(self)@.ready(),
        ensures
            final(self)@ == old(self)@.execute(Isa::LBU, final(self)@.loaded()),
            final(self)@.trace.len() == old(self)@.trace.len() ==> final(self).eei == old(self).eei,
    {
        if self.inst.rd == 0 {
            self.eei.trap(Traps::IllegalInstruction);
        } else {
            let rs1 = self.x[self.inst.rs1 as usize];
            let imm = self.inst.imm;
            let addr = rs1.as_u().wrapping_add_signed(imm);
            if self.is_misaligned(addr) {
                self.eei.trap(Traps::InstructionAddressMisaligned);
            } else {
                let data = self.eei.get_8(addr as u64);
                self.x[self.inst.rd as usize] = data as i32;
            }
        }
    }

    /// Loads a halfword and sign-extends it. A load to register 0 is an illegal
    /// instruction, and a misaligned address is a trap.
    pub fn LH(&mut self)
        requires
            old(self)@.ready(),
        ensures
            final(self)@ == old(self)@.execute(Isa::LH, final(self)@.loaded()),
            final(self)@.trace.len() == old(self)@.trace.len() ==> final(self).eei == old(self).eei,
    {
        if self.inst.rd == 0 {
            self.eei.trap(Traps::IllegalInstruction);
        } else {
            let rs1 = self.x[self.inst.rs1 as usize];
            let imm = self.inst.imm;
            let addr = rs1.as_u().wrapping_add_signed(imm);
            if self.is_misaligned(addr) {
                self.eei.trap(Traps::InstructionAddressMisaligned);
            } else {
                let data = self.eei.get_16(addr as u64);
                self.x[self.inst.rd as usize] = (data as i16) as i32;
            }
        }
    }

    /// Loads a halfword and zero-extends it. A load to register 0 is an illegal
    /// instruction, and a misaligned address is a trap.
    pub fn LHU(&mut self)
        requires
            old(self)@.ready(),
        ensures
            final(self)@ == old(self)@.execute(Isa::LHU, final(self)@.loaded()),
            final(self)@.trace.len() == old(self)@.trace.len() ==> final(self).eei == old(self).eei,
    {
        if self.inst.rd == 0 {
            self.eei.trap(Traps::IllegalInstruction);
        } else {
            let rs1 = self.x[self.inst.rs1 as usize];
            let imm = self.inst.imm;
            let addr = rs1.as_u().wrapping_add_signed(imm);
            if self.is_misaligned(addr) {
                self.eei.trap(Traps::InstructionAddressMisaligned);
            } else {
                let data = self.eei.get_16(addr as u64);
                self.x[self.inst.rd as usize] = data as i32;
            }
        }
    }

    /// `rd = imm`.
    pub fn LUI(&mut self)
        requires
            old(self)@.ready(),
        ensures
            final(self)@ == old(self)@.execute(Isa::LUI, 0),
            final(self).eei == old(self).eei,
    {
        if self.inst.rd != 0 {
            let imm = self.inst.imm;
            self.x[self.inst.rd as usize] = imm;
        }
    }

    /// Loads a word. A load to register 0 is an illegal
    /// instruction, and a misaligned address is a trap.
    pub fn LW(&mut self)
        requires
            old(self)@.ready(),
        ensures
            final(self)@ == old(self)@.execute(Isa::LW, final(self)@.loaded()),
            final(self)@.trace.len() == old(self)@.trace.len() ==> final(self).eei == old(self).eei,
    {
        if self.inst.rd == 0 {
            self.eei.trap(Traps::IllegalInstruction);
        } else {
            let rs1 = self.x[self.inst.rs1 as usize];
            let imm = self.inst.imm;
            let addr = rs1.as_u().wrapping_add_signed(imm);
            if self.is_misaligned(addr) {
                self.eei.trap(Traps::InstructionAddressMisaligned);
            } else {
                let data = self.eei.get_32(addr as u64);
                self.x[self.inst.rd as usize] = data.as_s();
            }
        }
    }

    /// `rd = rs1 | rs2`.
    pub fn OR(&mut self)
        requires
            old(self)@.ready(),
        ensures
            final(self)@ == old(self)@.execute(Isa::OR, 0),
            final(self).eei == old(self).eei,
    {
        if self.inst.rd != 0 {
            let rs1 = self.x[self.inst.rs1 as usize];
            let rs2 = self.x[self.inst.rs2 as usize];
            self.x[self.inst.rd as usize] = rs1 | rs2;
        }
    }

    /// `rd = rs1 | imm`.
    pub fn ORI(&mut self)
        requires
            old(self)@.ready(),
        ensures
            final(self)@ == old(self)@.execute(Isa::ORI, 0),
            final(self).eei == old(self).eei,
    {
        if self.inst.rd != 0 {
            let rs1 = self.x[self.inst.rs1 as usize];
            let imm = self.inst.imm;
            self.x[self.inst.rd as usize] = rs1 | imm;
        }
    }

    /// Stores the low byte of `rs2`. A misaligned address is a trap.
    pub fn SB(&mut self)
        requires
            old(self)@.ready(),
        ensures
            final(self)@ == old(self)@.execute(Isa::SB, 0),
            final(self)@.trace.len() == old(self)@.trace.len() ==> final(self).eei == old(self).eei,
    {
        let rs1 = self.x[self.inst.rs1 as usize];
        let rs2 = self.x[self.inst.rs2 as usize];
        let imm = self.inst.imm;
        let addr = rs1.as_u().wrapping_add_signed(imm);
        if self.is_misaligned(addr) {
            self.eei.trap(Traps::InstructionAddressMisaligned);
        } else {
            self.eei.set_8(addr as u64, rs2.as_byte());
        }
    }

    /// Stores the low halfword of `rs2`. A misaligned address is a trap.
    pub fn SH(&mut self)
        requires
            old(self)@.ready(),
        ensures
            final(self)@ == old(self)@.execute(Isa::SH, 0),
            final(self)@.trace.len() == old(self)@.trace.len() ==> final(self).eei == old(self).eei,
    {
        let rs1 = self.x[self.inst.rs1 as usize];
        let rs2 = self.x[self.inst.rs2 as usize];
        let imm = self.inst.imm;
        let addr = rs1.as_u().wrapping_add_signed(imm);
        if self.is_misaligned(addr) {
            self.eei.trap(Traps::InstructionAddressMisaligned);
        } else {
            self.eei.set_16(addr as u64, rs2.as_half());
        }
    }

    /// `rd = rs1 << rs2`, by the low bits of `rs2`.
    pub fn SLL(&mut self)
        requires
            old(self)@.ready(),
        ensures
            final(self)@ == old(self)@.execute(Isa::SLL, 0),
            final(self).eei == old(self).eei,
    {
        if self.inst.rd != 0 {
            let rs1 = self.x[self.inst.rs1 as usize];
            let rs2 = self.x[self.inst.rs2 as usize];
            proof {
                lemma_shamt_bound(rs2, 0);
            }
            self.x[self.inst.rd as usize] = rs1 << (rs2 & 0x1F);
        }
    }

    /// `rd = rs1 << imm`, by the low bits of `imm`.
    pub fn SLLI(&mut self)
        requires
            old(self)@.ready(),
        ensures
            final(self)@ == old(self)@.execute(Isa::SLLI, 0),
            final(self).eei == old(self).eei,
    {
        if self.inst.rd != 0 {
            let rs1 = self.x[self.inst.rs1 as usize];
            let imm = self.inst.imm;
            proof {
                lemma_shamt_bound(imm, 0);
            }
            self.x[self.inst.rd as usize] = rs1 << (imm & 0x1F);
        }
    }

    /// `rd = 1` if `rs1 < rs2` as signed numbers, else 0.
    pub fn SLT(&mut self)
        requires
            old(self)@.ready(),
        ensures
            final(self)@ == old(self)@.execute(Isa::SLT, 0),
            final(self).eei == old(self).eei,
    {
        if self.inst.rd != 0 {
            let rs1 = self.x[self.inst.rs1 as usize];
            let rs2 = self.x[self.inst.rs2 as usize];
            self.x[self.inst.rd as usize] = (rs1 < rs2) as i32;
        }
    }

    /// `rd = 1` if `rs1 < imm` as signed numbers, else 0.
    pub fn SLTI(&mut self)
        requires
            old(self)@.ready(),
        ensures
            final(self)@ == old(self)@.execute(Isa::SLTI, 0),
            final(self).eei == old(self).eei,
    {
        if self.inst.rd != 0 {
            let rs1 = self.x[self.inst.rs1 as usize];
            let imm = self.inst.imm;
            self.x[self.inst.rd as usize] = (rs1 < imm) as i32;
        }
    }

    /// `rd = 1` if `rs1 < imm` as unsigned numbers, else 0.
    pub fn SLTIU(&mut self)
        requires
            old(self)@.ready(),
        ensures
            final(self)@ == old(self)@.execute(Isa::SLTIU, 0),
            final(self).eei == old(self).eei,
    {
        if self.inst.rd != 0 {
            let rs1 = self.x[self.inst.rs1 as usize];
            let imm = self.inst.imm;
            self.x[self.inst.rd as usize] = (rs1.as_u() < imm.as_u()) as i32;
        }
    }

    /// `rd = 1` if `rs1 < rs2` as unsigned numbers, else 0.
    pub fn SLTU(&mut self)
        requires
            old(self)@.ready(),
        ensures
            final(self)@ == old(self)@.execute(Isa::SLTU, 0),
            final(self).eei == old(self).eei,
    {
        if self.inst.rd != 0 {
            let rs1 = self.x[self.inst.rs1 as usize];
            let rs2 = self.x[self.inst.rs2 as usize];
            self.x[self.inst.rd as usize] = (rs1.as_u() < rs2.as_u()) as i32;
        }
    }

    /// `rd = rs1 >> rs2`, by the low bits of `rs2`, keeping the sign.
    pub fn SRA(&mut self)
        requires
            old(self)@.ready(),
        ensures
            final(self)@ == old(self)@.execute(Isa::SRA, 0),
            final(self).eei == old(self).eei,
    {
        if self.inst.rd != 0 {
            let rs1 = self.x[self.inst.rs1 as usize];
            let rs2 = self.x[self.inst.rs2 as usize];
            proof {
                lemma_shamt_bound(rs2, 0);
            }
            self.x[self.inst.rd as usize] = rs1 >> (rs2 & 0x1F);
        }
    }

    /// `rd = rs1 >> imm`, by the low bits of `imm`, keeping the sign.
    pub fn SRAI(&mut self)
        requires
            old(self)@.ready(),
        ensures
            final(self)@ == old(self)@.execute(Isa::SRAI, 0),
            final(self).eei == old(self).eei,
    {
        if self.inst.rd != 0 {
            let rs1 = self.x[self.inst.rs1 as usize];
            let imm = self.inst.imm;
            proof {
                lemma_shamt_bound(imm, 0);
            }
            self.x[self.inst.rd as usize] = rs1 >> (imm & 0x1F);
        }
    }

    /// `rd = rs1 >> rs2`, by the low bits of `rs2`, filling with zeros.
    pub fn SRL(&mut self)
        requires
            old(self)@.ready(),
        ensures
            final(self)@ == old(self)@.execute(Isa::SRL, 0),
            final(self).eei == old(self).eei,
    {
        if self.inst.rd != 0 {
            let rs1 = self.x[self.inst.rs1 as usize];
            let rs2 = self.x[self.inst.rs2 as usize];
            proof {
                lemma_shamt_bound(rs2, 0);
            }
            self.x[self.inst.rd as usize] = (rs1.as_u() >> (rs2 & 0x1F)).as_s();
        }
    }

    /// `rd = rs1 >> imm`, by the low bits of `imm`, filling with zeros.
    pub fn SRLI(&mut self)
        requires
            old(self)@.ready(),
        ensures
            final(self)@ == old(self)@.execute(Isa::SRLI, 0),
            final(self).eei == old(self).eei,
    {
        if self.inst.rd != 0 {
            let rs1 = self.x[self.inst.rs1 as usize];
            let imm = self.inst.imm;
            proof {
                lemma_shamt_bound(imm, 0);
            }
            self.x[self.inst.rd as usize] = (rs1.as_u() >> (imm & 0x1F)).as_s();
        }
    }

    /// `rd = rs1 - rs2`, wrapping round.
    pub fn SUB(&mut self)
        requires
            old(self)@.ready(),
        ensures
            final(self)@ == old(self)@.execute(Isa::SUB, 0),
            final(self).eei == old(self).eei,
    {
        if self.inst.rd != 0 {
            let rs1 = self.x[self.inst.rs1 as usize];
            let rs2 = self.x[self.inst.rs2 as usize];
            self.x[self.inst.rd as usize] = rs1.wrapping_sub(rs2);
        }
    }

    /// Stores the low word of `rs2`. A misaligned address is a trap.
    pub fn SW(&mut self)
        requires
            old(self)@.ready(),
        ensures
            final(self)@ == old(self)@.execute(Isa::SW, 0),
            final(self)@.trace.len() == old(self)@.trace.len() ==> final(self).eei == old(self).eei,
    {
        let rs1 = self.x[self.inst.rs1 as usize];
        let rs2 = self.x[self.inst.rs2 as usize];
        let imm = self.inst.imm;
        let addr = rs1.as_u().wrapping_add_signed(imm);
        if self.is_misaligned(addr) {
            self.eei.trap(Traps::InstructionAddressMisaligned);
        } else {
            self.eei.set_32(addr as u64, rs2.as_word());
        }
    }

    /// `rd = rs1 ^ rs2`.
    pub fn XOR(&mut self)
        requires
            old(self)@.ready(),
        ensures
            final(self)@ == old(self)@.execute(Isa::XOR, 0),
            final(self).eei == old(self).eei,
    {
        if self.inst.rd != 0 {
            let rs1 = self.x[self.inst.rs1 as usize];
            let rs2 = self.x[self.inst.rs2 as usize];
            self.x[self.inst.rd as usize] = rs1 ^ rs2;
        }
    }

    /// `rd = rs1 ^ imm`.
    pub fn XORI(&mut self)
        requires
            old(self)@.ready(),
        ensures
            final(self)@ == old(self)@.execute(Isa::XORI, 0),
            final(self).eei == old(self).eei,
    {
        if self.inst.rd != 0 {
            let rs1 = self.x[self.inst.rs1 as usize];
            let imm = self.inst.imm;
            self.x[self.inst.rd as usize] = rs1 ^ imm;
        }
    }

    /// `rd = rs1 / rs2`, as signed numbers, rounded towards zero. A division by
    /// zero gives -1, and the quotient that does not fit gives `rs1`.
    pub fn DIV(&mut self)
        requires
            old(self)@.ready(),
        ensures
            final(self)@ == old(self)@.execute(Isa::DIV, 0),
            final(self).eei == old(self).eei,
    {
        if self.inst.rd != 0 {
            let rs1 = self.x[self.inst.rs1 as usize];
            let rs2 = self.x[self.inst.rs2 as usize];
            self.x[self.inst.rd as usize] = div32(rs1, rs2);
        }
    }

    /// `rd = rs1 / rs2`, as unsigned numbers. A division by zero gives all bits
    /// set.
    pub fn DIVU(&mut self)
        requires
            old(self)@.ready(),
        ensures
            final(self)@ == old(self)@.execute(Isa::DIVU, 0),
            final(self).eei == old(self).eei,
    {
        if self.inst.rd != 0 {
            let rs1 = self.x[self.inst.rs1 as usize];
            let rs2 = self.x[self.inst.rs2 as usize];
            self.x[self.inst.rd as usize] = divu32(rs1, rs2);
        }
    }

    /// `rd = rs1 * rs2`, wrapping round.
    pub fn MUL(&mut self)
        requires
            old(self)@.ready(),
        ensures
            final(self)@ == old(self)@.execute(Isa::MUL, 0),
            final(self).eei == old(self).eei,
    {
        if self.inst.rd != 0 {
            let rs1 = self.x[self.inst.rs1 as usize];
            let rs2 = self.x[self.inst.rs2 as usize];
            self.x[self.inst.rd as usize] = rs1.wrapping_mul(rs2);
        }
    }

    /// `rd` = the upper half of `rs1 * rs2`, as signed numbers.
    pub fn MULH(&mut self)
        requires
            old(self)@.ready(),
        ensures
            final(self)@ == old(self)@.execute(Isa::MULH, 0),
            final(self).eei == old(self).eei,
    {
        if self.inst.rd != 0 {
            let rs1 = self.x[self.inst.rs1 as usize];
            let rs2 = self.x[self.inst.rs2 as usize];
            self.x[self.inst.rd as usize] = mulh32(rs1, rs2);
        }
    }

    /// `rd` = the upper half of `rs1 * rs2`, `rs1` signed and `rs2` unsigned.
    pub fn MULHSU(&mut self)
        requires
            old(self)@.ready(),
        ensures
            final(self)@ == old(self)@.execute(Isa::MULHSU, 0),
            final(self).eei == old(self).eei,
    {
        if self.inst.rd != 0 {
            let rs1 = self.x[self.inst.rs1 as usize];
            let rs2 = self.x[self.inst.rs2 as usize];
            self.x[self.inst.rd as usize] = mulhsu32(rs1, rs2);
        }
    }

    /// `rd` = the upper half of `rs1 * rs2`, as unsigned numbers.
    pub fn MULHU(&mut self)
        requires
            old(self)@.ready(),
        ensures
            final(self)@ == old(self)@.execute(Isa::MULHU, 0),
            final(self).eei == old(self).eei,
    {
        if self.inst.rd != 0 {
            let rs1 = self.x[self.inst.rs1 as usize];
            let rs2 = self.x[self.inst.rs2 as usize];
            self.x[self.inst.rd as usize] = mulhu32(rs1, rs2);
        }
    }

    /// `rd = rs1 % rs2`, as signed numbers, with the sign of `rs1`. A division
    /// by zero gives `rs1`, and the division whose quotient does not fit gives 0.
    pub fn REM(&mut self)
        requires
            old(self)@.ready(),
        ensures
            final(self)@ == old(self)@.execute(Isa::REM, 0),
            final(self).eei == old(self).eei,
    {
        if self.inst.rd != 0 {
            let rs1 = self.x[self.inst.rs1 as usize];
            let rs2 = self.x[self.inst.rs2 as usize];
            self.x[self.inst.rd as usize] = rem32(rs1, rs2);
        }
    }

    /// `rd = rs1 % rs2`, as unsigned numbers. A division by zero gives `rs1`.
    pub fn REMU(&mut self)
        requires
            old(self)@.ready(),
        ensures
            final(self)@ == old(self)@.execute(Isa::REMU, 0),
            final(self).eei == old(self).eei,
    {
        if self.inst.rd != 0 {
            let rs1 = self.x[self.inst.rs1 as usize];
            let rs2 = self.x[self.inst.rs2 as usize];
            self.x[self.inst.rd as usize] = remu32(rs1, rs2);
        }
    }
}

} // verus!
