//! The mnemonics, the format each one is encoded in, and the dispatch tables
//! that a hart is built with.
use vstd::prelude::*;
use crate::common::instruction::Instruction;
use crate::common::instruction32::Instruction32;

verus! {

/// One mnemonic for every instruction that a hart knows, in the order of the
/// dispatch table: the position of a mnemonic in this list is its slot.
#[derive(Clone, Copy, Debug, PartialEq, Eq, Structural)]
pub enum Isa {
    /// An opcode that matches no instruction.
    UNKNOWN,
    // The base integer instructions of RV32I.
    ADD,
    ADDI,
    AND,
    ANDI,
    AUIPC,
    BEQ,
    BGE,
    BGEU,
    BLT,
    BLTU,
    BNE,
    EBREAK,
    ECALL,
    FENCE,
    JAL,
    JALR,
    LB,
    LBU,
    LH,
    LHU,
    LUI,
    LW,
    OR,
    ORI,
    SB,
    SH,
    SLL,
    SLLI,
    SLT,
    SLTI,
    SLTIU,
    SLTU,
    SRA,
    SRAI,
    SRL,
    SRLI,
    SUB,
    SW,
    XOR,
    XORI,
    // The base integer instructions that RV64I adds.
    ADDIW,
    ADDW,
    LD,
    LWU,
    SD,
    SLLIW,
    SLLW,
    SRAIW,
    SRAW,
    SRLIW,
    SRLW,
    SUBW,
    // Multiplication and division.
    DIV,
    DIVU,
    MUL,
    MULH,
    MULHSU,
    MULHU,
    REM,
    REMU,
    // Multiplication and division on words, for RV64I.
    DIVUW,
    DIVW,
    MULW,
    REMUW,
    REMW,
    /// The number of mnemonics above. It sizes the dispatch table and is never
    /// the result of a classification.
    _SIZE,
}

/// The instruction formats. Each names the decoder that reads the operands of
/// an opcode in that format.
#[derive(Clone, Copy, Debug, PartialEq, Eq, Structural)]
pub enum Format {
    /// No operands.
    Empty,
    /// Register, register, register.
    R,
    /// Register, register, 12-bit immediate.
    I,
    /// Store: two source registers and a 12-bit offset.
    S,
    /// Branch: two source registers and a 13-bit even offset.
    B,
    /// Register and the upper 20 bits of a word.
    U,
    /// Jump: register and a 21-bit even offset.
    J,
}

/// Slots of the dispatch table.
pub const ISA_SIZE: usize = 66;

/// First and last slot of the RV32I base instructions.
pub open spec fn i32_range(slot: int) -> bool {
    1 <= slot <= 40
}

/// First and last slot of the instructions that RV64I adds.
pub open spec fn i64_range(slot: int) -> bool {
    41 <= slot <= 52
}

/// First and last slot of the multiply/divide instructions.
pub open spec fn m32_range(slot: int) -> bool {
    53 <= slot <= 60
}

/// First and last slot of the multiply/divide instructions on words.
pub open spec fn m64_range(slot: int) -> bool {
    61 <= slot <= 65
}

impl Isa {
    /// The slot of this mnemonic: its position in the declaration of [`Isa`].
    pub open spec fn index(self) -> int {
        match self {
            Isa::UNKNOWN => 0,
            Isa::ADD => 1,
            Isa::ADDI => 2,
            Isa::AND => 3,
            Isa::ANDI => 4,
            Isa::AUIPC => 5,
            Isa::BEQ => 6,
            Isa::BGE => 7,
            Isa::BGEU => 8,
            Isa::BLT => 9,
            Isa::BLTU => 10,
            Isa::BNE => 11,
            Isa::EBREAK => 12,
            Isa::ECALL => 13,
            Isa::FENCE => 14,
            Isa::JAL => 15,
            Isa::JALR => 16,
            Isa::LB => 17,
            Isa::LBU => 18,
            Isa::LH => 19,
            Isa::LHU => 20,
            Isa::LUI => 21,
            Isa::LW => 22,
            Isa::OR => 23,
            Isa::ORI => 24,
            Isa::SB => 25,
            Isa::SH => 26,
            Isa::SLL => 27,
            Isa::SLLI => 28,
            Isa::SLT => 29,
            Isa::SLTI => 30,
            Isa::SLTIU => 31,
            Isa::SLTU => 32,
            Isa::SRA => 33,
            Isa::SRAI => 34,
            Isa::SRL => 35,
            Isa::SRLI => 36,
            Isa::SUB => 37,
            Isa::SW => 38,
            Isa::XOR => 39,
            Isa::XORI => 40,
            Isa::ADDIW => 41,
            Isa::ADDW => 42,
            Isa::LD => 43,
            Isa::LWU => 44,
            Isa::SD => 45,
            Isa::SLLIW => 46,
            Isa::SLLW => 47,
            Isa::SRAIW => 48,
            Isa::SRAW => 49,
            Isa::SRLIW => 50,
            Isa::SRLW => 51,
            Isa::SUBW => 52,
            Isa::DIV => 53,
            Isa::DIVU => 54,
            Isa::MUL => 55,
            Isa::MULH => 56,
            Isa::MULHSU => 57,
            Isa::MULHU => 58,
            Isa::REM => 59,
            Isa::REMU => 60,
            Isa::DIVUW => 61,
            Isa::DIVW => 62,
            Isa::MULW => 63,
            Isa::REMUW => 64,
            Isa::REMW => 65,
            Isa::_SIZE => 66,
        }
    }

    /// The format in which the instruction is encoded.
    pub open spec fn spec_format(self) -> Format {
        match self {
            Isa::ADD | Isa::AND | Isa::OR | Isa::SLL | Isa::SLT | Isa::SLTU | Isa::SRA
            | Isa::SRL | Isa::SUB | Isa::XOR | Isa::ADDW | Isa::SLLW | Isa::SRAW | Isa::SRLW
            | Isa::SUBW | Isa::DIV | Isa::DIVU | Isa::MUL | Isa::MULH | Isa::MULHSU | Isa::MULHU
            | Isa::REM | Isa::REMU | Isa::DIVUW | Isa::DIVW | Isa::MULW | Isa::REMUW
            | Isa::REMW => Format::R,
            Isa::ADDI | Isa::ANDI | Isa::FENCE | Isa::JALR | Isa::LB | Isa::LBU | Isa::LH
            | Isa::LHU | Isa::LW | Isa::ORI | Isa::SLLI | Isa::SLTI | Isa::SLTIU | Isa::SRAI
            | Isa::SRLI | Isa::XORI | Isa::ADDIW | Isa::LD | Isa::LWU | Isa::SLLIW | Isa::SRAIW
            | Isa::SRLIW => Format::I,
            Isa::SB | Isa::SH | Isa::SW | Isa::SD => Format::S,
            Isa::BEQ | Isa::BGE | Isa::BGEU | Isa::BLT | Isa::BLTU | Isa::BNE => Format::B,
            Isa::AUIPC | Isa::LUI => Format::U,
            Isa::JAL => Format::J,
            Isa::UNKNOWN | Isa::EBREAK | Isa::ECALL | Isa::_SIZE => Format::Empty,
        }
    }

    /// The instructions that read memory.
    pub open spec fn is_load(self) -> bool {
        self == Isa::LB || self == Isa::LBU || self == Isa::LH || self == Isa::LHU || self
            == Isa::LW || self == Isa::LD || self == Isa::LWU
    }

    /// The branches and jumps.
    pub open spec fn is_control_flow(self) -> bool {
        self == Isa::BEQ || self == Isa::BGE || self == Isa::BGEU || self == Isa::BLT || self
            == Isa::BLTU || self == Isa::BNE || self == Isa::JAL || self == Isa::JALR
    }

    /// Whether a hart of the given width and extensions executes the
    /// instruction: the base instructions always, those of RV64I on a 64-bit
    /// hart, multiplication and division where the extension `M` is enabled.
    pub open spec fn enabled(self, wide: bool, muldiv: bool) -> bool {
        let slot = self.index();
        ||| i32_range(slot)
        ||| i64_range(slot) && wide
        ||| m32_range(slot) && muldiv
        ||| m64_range(slot) && wide && muldiv
    }

    /// The slot of this mnemonic in a dispatch table.
    pub fn ordinal(self) -> (slot: usize)
        ensures
            slot == self.index(),
            slot <= ISA_SIZE,
            self != Isa::_SIZE ==> slot < ISA_SIZE,
    {
        self as usize
    }

    /// The format in which the instruction is encoded.
    #[verifier::when_used_as_spec(spec_format)]
    pub fn format(self) -> (format: Format)
        ensures
            format == self.spec_format(),
    {
        match self {
            Isa::ADD | Isa::AND | Isa::OR | Isa::SLL | Isa::SLT | Isa::SLTU | Isa::SRA
            | Isa::SRL | Isa::SUB | Isa::XOR | Isa::ADDW | Isa::SLLW | Isa::SRAW | Isa::SRLW
            | Isa::SUBW | Isa::DIV | Isa::DIVU | Isa::MUL | Isa::MULH | Isa::MULHSU | Isa::MULHU
            | Isa::REM | Isa::REMU | Isa::DIVUW | Isa::DIVW | Isa::MULW | Isa::REMUW
            | Isa::REMW => Format::R,
            Isa::ADDI | Isa::ANDI | Isa::FENCE | Isa::JALR | Isa::LB | Isa::LBU | Isa::LH
            | Isa::LHU | Isa::LW | Isa::ORI | Isa::SLLI | Isa::SLTI | Isa::SLTIU | Isa::SRAI
            | Isa::SRLI | Isa::XORI | Isa::ADDIW | Isa::LD | Isa::LWU | Isa::SLLIW | Isa::SRAIW
            | Isa::SRLIW => Format::I,
            Isa::SB | Isa::SH | Isa::SW | Isa::SD => Format::S,
            Isa::BEQ | Isa::BGE | Isa::BGEU | Isa::BLT | Isa::BLTU | Isa::BNE => Format::B,
            Isa::AUIPC | Isa::LUI => Format::U,
            Isa::JAL => Format::J,
            Isa::UNKNOWN | Isa::EBREAK | Isa::ECALL | Isa::_SIZE => Format::Empty,
        }
    }
}

/// The mnemonics take the slots 0 to 65 one for one: two mnemonics with one
/// slot are the same mnemonic.
pub proof fn lemma_index_injective(a: Isa, b: Isa)
    requires
        a.index() == b.index(),
    ensures
        a == b,
{
}

/// The slots of the four instruction sets are contiguous and disjoint, and
/// together with slot 0 of `UNKNOWN` they fill the dispatch table.
pub proof fn lemma_ranges_partition(slot: int)
    requires
        0 <= slot < ISA_SIZE,
    ensures
        (slot == 0) as int + i32_range(slot) as int + i64_range(slot) as int + m32_range(
            slot,
        ) as int + m64_range(slot) as int == 1,
{
}

/// One slot of a dispatch table. A hart dispatches an opcode through the slot
/// of its mnemonic: the decoder of the slot reads the operands, and the
/// mnemonic of the slot selects the effect of the instruction and its text.
#[derive(Clone, Copy, Debug, PartialEq, Eq, Structural)]
pub struct IsaEntry {
    /// The mnemonic that is executed. For a slot that no enabled instruction
    /// set fills this is `UNKNOWN`.
    pub isa: Isa,
    /// The format whose decoder reads the opcode.
    pub decoder: Format,
}

impl IsaEntry {
    /// The entry of every slot that no instruction set fills: nothing is
    /// decoded, and executing it is an illegal instruction.
    pub open spec fn spec_unknown() -> IsaEntry {
        IsaEntry { isa: Isa::UNKNOWN, decoder: Format::Empty }
    }

    /// The entry of a mnemonic's own slot: the mnemonic with its format.
    pub open spec fn spec_of(isa: Isa) -> IsaEntry {
        IsaEntry { isa, decoder: isa.spec_format() }
    }

    /// The entry of every slot that no instruction set fills.
    #[verifier::when_used_as_spec(spec_unknown)]
    pub fn unknown() -> (entry: IsaEntry)
        ensures
            entry == Self::spec_unknown(),
    {
        IsaEntry { isa: Isa::UNKNOWN, decoder: Format::Empty }
    }

    /// What the decoder of this entry reads from an opcode, on a 32-bit hart.
    pub open spec fn spec_decode32(self, isa: Isa, pc: u32, opcode: u32) -> Instruction32 {
        match self.decoder {
            Format::Empty => Instruction32::spec_new_empty(isa, pc),
            Format::R => Instruction32::spec_decode_type_r(isa, pc, opcode),
            Format::I => Instruction32::spec_decode_type_i(isa, pc, opcode),
            Format::S => Instruction32::spec_decode_type_s(isa, pc, opcode),
            Format::B => Instruction32::spec_decode_type_b(isa, pc, opcode),
            Format::U => Instruction32::spec_decode_type_u(isa, pc, opcode),
            Format::J => Instruction32::spec_decode_type_j(isa, pc, opcode),
        }
    }

    /// What the decoder of this entry reads from an opcode, on a 64-bit hart.
    pub open spec fn spec_decode(self, isa: Isa, pc: u64, opcode: u32) -> Instruction {
        match self.decoder {
            Format::Empty => Instruction::spec_empty(isa, pc),
            Format::R => Instruction::spec_decode_type_r(isa, pc, opcode),
            Format::I => Instruction::spec_decode_type_i(isa, pc, opcode),
            Format::S => Instruction::spec_decode_type_s(isa, pc, opcode),
            Format::B => Instruction::spec_decode_type_b(isa, pc, opcode),
            Format::U => Instruction::spec_decode_type_u(isa, pc, opcode),
            Format::J => Instruction::spec_decode_type_j(isa, pc, opcode),
        }
    }

    /// Decodes `opcode`, fetched at `pc` and classified as `isa`, with the
    /// decoder of this entry, for a 32-bit hart.
    pub fn decode32(&self, isa: Isa, pc: u32, opcode: u32) -> (instruction: Instruction32)
        ensures
            instruction == self.spec_decode32(isa, pc, opcode),
            instruction.wf(),
    {
        match self.decoder {
            Format::Empty => Instruction32::decode_type_empty(isa, pc, opcode),
            Format::R => Instruction32::decode_type_r(isa, pc, opcode),
            Format::I => Instruction32::decode_type_i(isa, pc, opcode),
            Format::S => Instruction32::decode_type_s(isa, pc, opcode),
            Format::B => Instruction32::decode_type_b(isa, pc, opcode),
            Format::U => Instruction32::decode_type_u(isa, pc, opcode),
            Format::J => Instruction32::decode_type_j(isa, pc, opcode),
        }
    }

    /// Decodes `opcode`, fetched at `pc` and classified as `isa`, with the
    /// decoder of this entry, for a 64-bit hart.
    pub fn decode(&self, isa: Isa, pc: u64, opcode: u32) -> (instruction: Instruction)
        ensures
            instruction == self.spec_decode(isa, pc, opcode),
            instruction.wf(),
    {
        match self.decoder {
            Format::Empty => Instruction::empty(isa, pc, opcode),
            Format::R => Instruction::decode_type_r(isa, pc, opcode),
            Format::I => Instruction::decode_type_i(isa, pc, opcode),
            Format::S => Instruction::decode_type_s(isa, pc, opcode),
            Format::B => Instruction::decode_type_b(isa, pc, opcode),
            Format::U => Instruction::decode_type_u(isa, pc, opcode),
            Format::J => Instruction::decode_type_j(isa, pc, opcode),
        }
    }
}

/// A sub-table holds, slot after slot from `first`, the mnemonic of that slot
/// with its format.
pub open spec fn sub_table(lut: Seq<IsaEntry>, first: int) -> bool {
    forall|k: int|
        0 <= k < lut.len() ==> #[trigger] lut[k].isa.index() == first + k && lut[k]
            == IsaEntry::spec_of(lut[k].isa)
}

/// What the slot of `isa` holds in the table of a hart: the mnemonic's own
/// entry where the hart executes it, the unknown entry where it does not.
pub open spec fn slot_entry(isa: Isa, wide: bool, muldiv: bool) -> IsaEntry {
    if isa.enabled(wide, muldiv) {
        IsaEntry::spec_of(isa)
    } else {
        IsaEntry::spec_unknown()
    }
}

/// `table` is the dispatch table of a hart of the given width and extensions:
/// the slot of every mnemonic holds what [`slot_entry`] gives for it.
pub open spec fn dispatch_table(table: Seq<IsaEntry>, wide: bool, muldiv: bool) -> bool {
    &&& table.len() == ISA_SIZE
    &&& forall|isa: Isa|
        isa != Isa::_SIZE ==> #[trigger] table[isa.index()] == slot_entry(isa, wide, muldiv)
}

/// The RV32I base instructions, in slot order from `ADD`.
pub fn isa_lut_i32() -> (lut: [IsaEntry; 40])
    ensures
        sub_table(lut@, Isa::ADD.index()),
{
    [
        IsaEntry { isa: Isa::ADD,    decoder: Format::R },
        IsaEntry { isa: Isa::ADDI,   decoder: Format::I },
        IsaEntry { isa: Isa::AND,    decoder: Format::R },
        IsaEntry { isa: Isa::ANDI,   decoder: Format::I },
        IsaEntry { isa: Isa::AUIPC,  decoder: Format::U },
        IsaEntry { isa: Isa::BEQ,    decoder: Format::B },
        IsaEntry { isa: Isa::BGE,    decoder: Format::B },
        IsaEntry { isa: Isa::BGEU,   decoder: Format::B },
        IsaEntry { isa: Isa::BLT,    decoder: Format::B },
        IsaEntry { isa: Isa::BLTU,   decoder: Format::B },
        IsaEntry { isa: Isa::BNE,    decoder: Format::B },
        IsaEntry { isa: Isa::EBREAK, decoder: Format::Empty },
        IsaEntry { isa: Isa::ECALL,  decoder: Format::Empty },
        IsaEntry { isa: Isa::FENCE,  decoder: Format::I },
        IsaEntry { isa: Isa::JAL,    decoder: Format::J },
        IsaEntry { isa: Isa::JALR,   decoder: Format::I },
        IsaEntry { isa: Isa::LB,     decoder: Format::I },
        IsaEntry { isa: Isa::LBU,    decoder: Format::I },
        IsaEntry { isa: Isa::LH,     decoder: Format::I },
        IsaEntry { isa: Isa::LHU,    decoder: Format::I },
        IsaEntry { isa: Isa::LUI,    decoder: Format::U },
        IsaEntry { isa: Isa::LW,     decoder: Format::I },
        IsaEntry { isa: Isa::OR,     decoder: Format::R },
        IsaEntry { isa: Isa::ORI,    decoder: Format::I },
        IsaEntry { isa: Isa::SB,     decoder: Format::S },
        IsaEntry { isa: Isa::SH,     decoder: Format::S },
        IsaEntry { isa: Isa::SLL,    decoder: Format::R },
        IsaEntry { isa: Isa::SLLI,   decoder: Format::I },
        IsaEntry { isa: Isa::SLT,    decoder: Format::R },
        IsaEntry { isa: Isa::SLTI,   decoder: Format::I },
        IsaEntry { isa: Isa::SLTIU,  decoder: Format::I },
        IsaEntry { isa: Isa::SLTU,   decoder: Format::R },
        IsaEntry { isa: Isa::SRA,    decoder: Format::R },
        IsaEntry { isa: Isa::SRAI,   decoder: Format::I },
        IsaEntry { isa: Isa::SRL,    decoder: Format::R },
        IsaEntry { isa: Isa::SRLI,   decoder: Format::I },
        IsaEntry { isa: Isa::SUB,    decoder: Format::R },
        IsaEntry { isa: Isa::SW,     decoder: Format::S },
        IsaEntry { isa: Isa::XOR,    decoder: Format::R },
        IsaEntry { isa: Isa::XORI,   decoder: Format::I },
    ]
}

/// The instructions that RV64I adds, in slot order from `ADDIW`.
pub fn isa_lut_i64() -> (lut: [IsaEntry; 12])
    ensures
        sub_table(lut@, Isa::ADDIW.index()),
{
    [
        IsaEntry { isa: Isa::ADDIW, decoder: Format::I },
        IsaEntry { isa: Isa::ADDW,  decoder: Format::R },
        IsaEntry { isa: Isa::LD,    decoder: Format::I },
        IsaEntry { isa: Isa::LWU,   decoder: Format::I },
        IsaEntry { isa: Isa::SD,    decoder: Format::S },
        IsaEntry { isa: Isa::SLLIW, decoder: Format::I },
        IsaEntry { isa: Isa::SLLW,  decoder: Format::R },
        IsaEntry { isa: Isa::SRAIW, decoder: Format::I },
        IsaEntry { isa: Isa::SRAW,  decoder: Format::R },
        IsaEntry { isa: Isa::SRLIW, decoder: Format::I },
        IsaEntry { isa: Isa::SRLW,  decoder: Format::R },
        IsaEntry { isa: Isa::SUBW,  decoder: Format::R },
    ]
}

/// Multiplication and division, in slot order from `DIV`.
pub fn isa_lut_m32() -> (lut: [IsaEntry; 8])
    ensures
        sub_table(lut@, Isa::DIV.index()),
{
    [
        IsaEntry { isa: Isa::DIV,    decoder: Format::R },
        IsaEntry { isa: Isa::DIVU,   decoder: Format::R },
        IsaEntry { isa: Isa::MUL,    decoder: Format::R },
        IsaEntry { isa: Isa::MULH,   decoder: Format::R },
        IsaEntry { isa: Isa::MULHSU, decoder: Format::R },
        IsaEntry { isa: Isa::MULHU,  decoder: Format::R },
        IsaEntry { isa: Isa::REM,    decoder: Format::R },
        IsaEntry { isa: Isa::REMU,   decoder: Format::R },
    ]
}

/// Multiplication and division on words, in slot order from `DIVUW`.
pub fn isa_lut_m64() -> (lut: [IsaEntry; 5])
    ensures
        sub_table(lut@, Isa::DIVUW.index()),
{
    [
        IsaEntry { isa: Isa::DIVUW, decoder: Format::R },
        IsaEntry { isa: Isa::DIVW,  decoder: Format::R },
        IsaEntry { isa: Isa::MULW,  decoder: Format::R },
        IsaEntry { isa: Isa::REMUW, decoder: Format::R },
        IsaEntry { isa: Isa::REMW,  decoder: Format::R },
    ]
}

/// Copies a sub-table over the slots of `table` from `first` on. The other
/// slots keep what they hold.
pub fn splice<const N: usize>(table: &mut [IsaEntry; ISA_SIZE], first: usize, lut: &[IsaEntry; N])
    requires
        first + N <= ISA_SIZE,
    ensures
        final(table)@ == old(table)@.subrange(0, first as int) + lut@ + old(table)@.subrange(
            first + N,
            ISA_SIZE as int,
        ),
{
    let mut k: usize = 0;
    while k < N
        invariant
            k <= N,
            first + N <= ISA_SIZE,
            table@ == old(table)@.subrange(0, first as int) + lut@.subrange(0, k as int) + old(
                table,
            )@.subrange(first + k, ISA_SIZE as int),
        decreases N - k,
    {
        table[first + k] = lut[k];
        k += 1;
        assert(table@ =~= old(table)@.subrange(0, first as int) + lut@.subrange(0, k as int) + old(
            table,
        )@.subrange(first + k, ISA_SIZE as int));
    }
    assert(lut@.subrange(0, N as int) =~= lut@);
}

} // verus!
