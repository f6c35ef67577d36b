//! The core module, containing the harts, the assembler and the interpreter.
use vstd::prelude::*;
use vstd::string::StrSliceExecFns;
use crate::common::instruction::Instruction;
use crate::common::instruction32::Instruction32;
use crate::common::is_even;
use crate::common::isa::{
    dispatch_table,
    i32_range,
    i64_range,
    isa_lut_i32,
    isa_lut_i64,
    isa_lut_m32,
    isa_lut_m64,
    lemma_index_injective,
    m32_range,
    m64_range,
    slot_entry,
    splice,
    Isa,
    IsaEntry,
    ISA_SIZE,
};
use crate::public::ExecutionEnvironmentInterface;
use crate::rvi::semantics::Hart32;
use crate::rvi::semantics64::Hart64;
use crate::rvi::trace::Traced;

pub mod arithmetic;
pub mod assembler;
pub mod disassembler;
pub mod interpreter;
pub mod interpreter64;
pub mod semantics;
pub mod semantics64;
pub mod trace;

verus! {

/// Configuration of the RISC-V hart.
#[derive(Clone, Debug)]
pub struct RVConfig {
    /// The list of ISA extensions.
    pub ext: String,
    /// Used by the disassembler. See [`crate::common::get_x_register_name`] and
    /// [`crate::common::get_f_register_name`].
    pub abi_name: bool,
}

impl RVConfig {
    /// Whether the extension with the given letter is enabled.
    pub fn has(&self, letter: char) -> (enabled: bool)
        ensures
            enabled == self.ext@.contains(letter),
    {
        let ext = self.ext.as_str();
        let count = ext.unicode_len();
        let mut position: usize = 0;
        while position < count
            invariant
                ext@ == self.ext@,
                count == ext@.len(),
                position <= count,
                forall|k: int| 0 <= k < position ==> ext@[k] != letter,
            decreases count - position,
        {
            if ext.get_char(position) == letter {
                return true;
            }
            position += 1;
        }
        false
    }
}

/// RISC-V hart with `N` registers of 32 bits, where `N` is 16 or 32.
///
/// `EEI` is the execution environment of the hart, provided by the user. The
/// state of the hart as the contracts speak of it is its view, a [`Hart32`].
pub struct RV32I<EEI: ExecutionEnvironmentInterface, const N: usize> {
    /// The integer registers. `x[0]` must always be 0.
    pub x: [i32; N],
    /// The program counter. It points to the next instruction before executing the current
    /// instruction.
    pub pc: u32,
    /// The instruction currently being executed.
    pub inst: Instruction32,
    /// Configuration of the context.
    pub config: RVConfig,
    /// The execution environment, with the record of what was asked of it.
    pub eei: Traced<EEI>,
    /// The dispatch table: for every mnemonic the decoder of its opcodes and
    /// the mnemonic that is executed.
    pub isa: [IsaEntry; ISA_SIZE],
}

impl<EEI: ExecutionEnvironmentInterface, const N: usize> View for RV32I<EEI, N> {
    type V = Hart32;

    open spec fn view(&self) -> Hart32 {
        Hart32 {
            x: self.x@,
            pc: self.pc,
            inst: self.inst,
            ext: self.config.ext@,
            abi_name: self.config.abi_name,
            isa: self.isa@,
            trace: self.eei.history(),
        }
    }
}

impl<EEI: ExecutionEnvironmentInterface, const N: usize> RV32I<EEI, N> {
    /// Whether the operands of `self.inst` name registers that this hart
    /// has.
    pub fn ready(&self) -> (ready: bool)
        ensures
            ready == self@.ready(),
    {
        (self.inst.rd as usize) < N && (self.inst.rs1 as usize) < N && (self.inst.rs2 as usize) < N
    }

    /// Whether `val` is misaligned: with the extension `C` an address must be
    /// even, without it a multiple of 4.
    pub fn is_misaligned(&self, val: u32) -> (misaligned: bool)
        ensures
            misaligned == self@.misaligned(val),
    {
        if self.config.has('C') {
            !is_even(val as u64)
        } else {
            assert(val & 0b11 == val % 4) by (bit_vector);
            val & 0b11 != 0
        }
    }

    /// Creates a new RV32I hart.
    ///
    /// `x` is the initial state of the 16 or 32 registers (`x[0]` is ignored and set to 0).
    /// `pc` is the initial program counter value.
    /// `config` holds the ISA extensions to be used.
    /// `eei` is the execution environment interface.
    pub fn new(x: [i32; N], pc: u32, config: RVConfig, eei: EEI) -> (core: Self)
        requires
            N == 16 || N == 32,
        ensures
            core@.initial(x@, pc, config.ext@, config.abi_name),
            core@.wf(),
            core.eei.spec_env() == eei,
    {
        let mut core = Self {
            x,
            pc,
            inst: Instruction32::new_empty(Isa::UNKNOWN, 0),
            config,
            eei: Traced::new(eei),
            isa: [IsaEntry::unknown(); ISA_SIZE],
        };
        core.load_isa();
        core.x[0] = 0;
        core
    }

    /// Fills the dispatch table: the base instructions, and multiplication
    /// and division where the extension `M` is enabled.
    fn load_isa(&mut self)
        requires
            forall|slot: int| 0 <= slot < ISA_SIZE ==> old(self).isa@[slot] == IsaEntry::unknown(),
        ensures
            dispatch_table(final(self).isa@, false, final(self)@.muldiv()),
            final(self).x == old(self).x,
            final(self).pc == old(self).pc,
            final(self).inst == old(self).inst,
            final(self).config == old(self).config,
            final(self).eei == old(self).eei,
    {
        splice(&mut self.isa, Isa::ADD.ordinal(), &isa_lut_i32());
        if self.config.has('M') {
            splice(&mut self.isa, Isa::DIV.ordinal(), &isa_lut_m32());
        }
        proof {
            let table = self.isa@;
            assert forall|isa: Isa| isa != Isa::_SIZE implies #[trigger] table[isa.index()]
                == slot_entry(isa, false, self@.muldiv()) by {
                let slot = isa.index();
                if i32_range(slot) {
                    lemma_index_injective(table[slot].isa, isa);
                } else if m32_range(slot) && self@.muldiv() {
                    lemma_index_injective(table[slot].isa, isa);
                }
            }
        }
    }
}

/// RISC-V hart with `N` registers of 64 bits, where `N` is 16 or 32.
///
/// `EEI` is the execution environment of the hart, provided by the user. The
/// state of the hart as the contracts speak of it is its view, a [`Hart64`].
pub struct RV64I<EEI: ExecutionEnvironmentInterface, const N: usize> {
    /// The integer registers. `x[0]` must always be 0.
    pub x: [i64; N],
    /// The program counter. It points to the next instruction before executing the current
    /// instruction.
    pub pc: u64,
    /// The instruction currently being executed.
    pub inst: Instruction,
    /// Configuration of the context.
    pub config: RVConfig,
    /// The execution environment, with the record of what was asked of it.
    pub eei: Traced<EEI>,
    /// The dispatch table: for every mnemonic the decoder of its opcodes and
    /// the mnemonic that is executed.
    pub isa: [IsaEntry; ISA_SIZE],
}

impl<EEI: ExecutionEnvironmentInterface, const N: usize> View for RV64I<EEI, N> {
    type V = Hart64;

    open spec fn view(&self) -> Hart64 {
        Hart64 {
            x: self.x@,
            pc: self.pc,
            inst: self.inst,
            ext: self.config.ext@,
            abi_name: self.config.abi_name,
            isa: self.isa@,
            trace: self.eei.history(),
        }
    }
}

impl<EEI: ExecutionEnvironmentInterface, const N: usize> RV64I<EEI, N> {
    /// Whether the operands of `self.inst` name registers that this hart
    /// has.
    pub fn ready(&self) -> (ready: bool)
        ensures
            ready == self@.ready(),
    {
        (self.inst.rd as usize) < N && (self.inst.rs1 as usize) < N && (self.inst.rs2 as usize) < N
    }

    /// Whether `val` is misaligned: with the extension `C` an address must be
    /// even, without it a multiple of 4.
    pub fn is_misaligned(&self, val: u64) -> (misaligned: bool)
        ensures
            misaligned == self@.misaligned(val),
    {
        if self.config.has('C') {
            !is_even(val)
        } else {
            assert(val & 0b11 == val % 4) by (bit_vector);
            val & 0b11 != 0
        }
    }

    /// Creates a new RV64I hart.
    ///
    /// `x` is the initial state of the 16 or 32 registers (`x[0]` is ignored and set to 0).
    /// `pc` is the initial program counter value.
    /// `config` holds the ISA extensions to be used.
    /// `eei` is the execution environment interface.
    pub fn new(x: [i64; N], pc: u64, config: RVConfig, eei: EEI) -> (core: Self)
        requires
            N == 16 || N == 32,
        ensures
            core@.initial(x@, pc, config.ext@, config.abi_name),
            core@.wf(),
            core.eei.spec_env() == eei,
    {
        let mut core = Self {
            x,
            pc,
            inst: Instruction::empty(Isa::UNKNOWN, 0, 0),
            config,
            eei: Traced::new(eei),
            isa: [IsaEntry::unknown(); ISA_SIZE],
        };
        core.load_isa();
        core.x[0] = 0;
        core
    }

    /// Fills the dispatch table: the base instructions of RV32I and RV64I,
    /// and multiplication and division where the extension `M` is enabled.
    fn load_isa(&mut self)
        requires
            forall|slot: int| 0 <= slot < ISA_SIZE ==> old(self).isa@[slot] == IsaEntry::unknown(),
        ensures
            dispatch_table(final(self).isa@, true, final(self)@.muldiv()),
            final(self).x == old(self).x,
            final(self).pc == old(self).pc,
            final(self).inst == old(self).inst,
            final(self).config == old(self).config,
            final(self).eei == old(self).eei,
    {
        splice(&mut self.isa, Isa::ADD.ordinal(), &isa_lut_i32());
        splice(&mut self.isa, Isa::ADDIW.ordinal(), &isa_lut_i64());
        if self.config.has('M') {
            splice(&mut self.isa, Isa::DIV.ordinal(), &isa_lut_m32());
            splice(&mut self.isa, Isa::DIVUW.ordinal(), &isa_lut_m64());
        }
        proof {
            let table = self.isa@;
            assert forall|isa: Isa| isa != Isa::_SIZE implies #[trigger] table[isa.index()]
                == slot_entry(isa, true, self@.muldiv()) by {
                let slot = isa.index();
                if i32_range(slot) || i64_range(slot) {
                    lemma_index_injective(table[slot].isa, isa);
                } else if (m32_range(slot) || m64_range(slot)) && self@.muldiv() {
                    lemma_index_injective(table[slot].isa, isa);
                }
            }
        }
    }
}

} // verus!
