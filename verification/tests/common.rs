use dyriscvic::common::decoder::get_instruction_length;
use dyriscvic::common::isa::{
    isa_lut_i32, isa_lut_i64, isa_lut_m32, isa_lut_m64, splice, Format, Isa, IsaEntry, ISA_SIZE,
};
use dyriscvic::common::text::{decimal_string, signed_decimal_string};
use dyriscvic::common::types::{As, AsSigned, AsUnsigned};
use dyriscvic::common::{get_f_register_name, get_x_register_name, is_even, AsSlice};

#[test]
fn instruction_length_follows_the_low_bits() {
    assert_eq!(get_instruction_length(0b0000_0000_0000_0000), 2);
    assert_eq!(get_instruction_length(0b0000_0000_0000_0001), 2);
    assert_eq!(get_instruction_length(0b1111_1111_1111_1110), 2);
    assert_eq!(get_instruction_length(0b0000_0000_0000_0011), 4);
    assert_eq!(get_instruction_length(0b0000_0000_0001_0011), 4);
    assert_eq!(get_instruction_length(0b1111_1111_1111_1011), 4);
    assert_eq!(get_instruction_length(0b0000_0000_0001_1111), 6);
    assert_eq!(get_instruction_length(0b1111_1111_1101_1111), 6);
    assert_eq!(get_instruction_length(0b0000_0000_0011_1111), 8);
    assert_eq!(get_instruction_length(0b1111_1111_1011_1111), 8);
    assert_eq!(get_instruction_length(0b0000_0000_0111_1111), 10);
    assert_eq!(get_instruction_length(0b0001_0000_0111_1111), 12);
    assert_eq!(get_instruction_length(0b0011_0000_0111_1111), 16);
    assert_eq!(get_instruction_length(0b1110_1111_1111_1111), 22);
    assert_eq!(get_instruction_length(0b0111_0000_0111_1111), 24);
    assert_eq!(get_instruction_length(0b1111_1111_1111_1111), 24);
}

#[test]
fn integer_register_names() {
    let abi = [
        "zero", "ra", "sp", "gp", "tp", "t0", "t1", "t2", "s0", "s1", "a0", "a1", "a2", "a3", "a4",
        "a5", "a6", "a7", "s2", "s3", "s4", "s5", "s6", "s7", "s8", "s9", "s10", "s11", "t3", "t4",
        "t5", "t6",
    ];
    for reg in 0..32u8 {
        assert_eq!(get_x_register_name(reg, true), abi[reg as usize]);
        assert_eq!(get_x_register_name(reg, false), format!("x{}", reg));
    }
    assert_eq!(get_x_register_name(32, true), "Unknown register");
    assert_eq!(get_x_register_name(255, true), "Unknown register");
    assert_eq!(get_x_register_name(32, false), "x32");
    assert_eq!(get_x_register_name(255, false), "x255");
}

#[test]
fn floating_point_register_names() {
    let abi = [
        "ft0", "ft1", "ft2", "ft3", "ft4", "ft5", "ft6", "ft7", "fs0", "fs1", "fa0", "fa1", "fa2",
        "fa3", "fa4", "fa5", "fa6", "fa7", "fs2", "fs3", "fs4", "fs5", "fs6", "fs7", "fs8", "fs9",
        "fs10", "fs11", "ft8", "ft9", "ft10", "ft11",
    ];
    for reg in 0..32u8 {
        assert_eq!(get_f_register_name(reg, true), abi[reg as usize]);
        assert_eq!(get_f_register_name(reg, false), format!("f{}", reg));
    }
    assert_eq!(get_f_register_name(32, true), "Unknown register");
    assert_eq!(get_f_register_name(100, false), "f100");
}

#[test]
fn decimal_text() {
    assert_eq!(decimal_string(0), "0");
    assert_eq!(decimal_string(7), "7");
    assert_eq!(decimal_string(10), "10");
    assert_eq!(decimal_string(1234567890), "1234567890");
    assert_eq!(decimal_string(u64::MAX), "18446744073709551615");
    assert_eq!(signed_decimal_string(0), "0");
    assert_eq!(signed_decimal_string(-1), "-1");
    assert_eq!(signed_decimal_string(-456), "-456");
    assert_eq!(signed_decimal_string(2047), "2047");
    assert_eq!(signed_decimal_string(i64::MIN), "-9223372036854775808");
    assert_eq!(signed_decimal_string(i64::MAX), "9223372036854775807");
}

#[test]
fn evenness() {
    assert!(is_even(0));
    assert!(!is_even(1));
    assert!(is_even(4));
    assert!(!is_even(u64::MAX));
    assert!(is_even(u64::MAX - 1));
}

#[test]
fn little_endian_bytes() {
    assert_eq!(0x1234u16.as_slice_le(), [0x34, 0x12]);
    assert_eq!(0x1234_5678u32.as_slice_le(), [0x78, 0x56, 0x34, 0x12]);
    assert_eq!(0u32.as_slice_le(), [0, 0, 0, 0]);
    assert_eq!(u32::MAX.as_slice_le(), [0xFF, 0xFF, 0xFF, 0xFF]);
}

#[test]
fn same_bits_other_type() {
    assert_eq!(0xFFFF_FFFFu32.as_s(), -1);
    assert_eq!(0x8000_0000u32.as_s(), i32::MIN);
    assert_eq!(u64::MAX.as_s(), -1i64);
    assert_eq!((-1i32).as_u(), 0xFFFF_FFFF);
    assert_eq!(i64::MIN.as_u(), 0x8000_0000_0000_0000);
    assert_eq!(0x1234_5678u32.as_byte(), 0x78);
    assert_eq!(0x1234_5678u32.as_half(), 0x5678);
    assert_eq!(0x1234_5678u32.as_word(), 0x1234_5678);
    assert_eq!((-2i32).as_byte(), 0xFE);
    assert_eq!((-2i32).as_half(), 0xFFFE);
    assert_eq!((-2i32).as_word(), 0xFFFF_FFFE);
    assert_eq!(0x1_2345_6789u64.as_word(), 0x2345_6789);
    assert_eq!((-2i64).as_word(), 0xFFFF_FFFE);
    assert_eq!((-2i64).as_half(), 0xFFFE);
    assert_eq!(0x1FFu64.as_byte(), 0xFF);
}

#[test]
fn slots_are_the_positions_of_the_mnemonics() {
    assert_eq!(Isa::UNKNOWN.ordinal(), 0);
    assert_eq!(Isa::ADD.ordinal(), 1);
    assert_eq!(Isa::XORI.ordinal(), 40);
    assert_eq!(Isa::ADDIW.ordinal(), 41);
    assert_eq!(Isa::SUBW.ordinal(), 52);
    assert_eq!(Isa::DIV.ordinal(), 53);
    assert_eq!(Isa::REMU.ordinal(), 60);
    assert_eq!(Isa::DIVUW.ordinal(), 61);
    assert_eq!(Isa::REMW.ordinal(), 65);
    assert_eq!(Isa::_SIZE.ordinal(), ISA_SIZE);
    assert_eq!(Isa::ADD.ordinal(), Isa::ADD as usize);
    assert_eq!(Isa::REMW.ordinal(), Isa::REMW as usize);
    assert_eq!(Isa::_SIZE.ordinal(), Isa::_SIZE as usize);
}

#[test]
fn sub_tables_hold_each_mnemonic_at_its_slot() {
    let i32_ = isa_lut_i32();
    for (k, entry) in i32_.iter().enumerate() {
        assert_eq!(entry.isa.ordinal(), Isa::ADD.ordinal() + k);
        assert_eq!(entry.decoder, entry.isa.format());
    }
    let i64_ = isa_lut_i64();
    for (k, entry) in i64_.iter().enumerate() {
        assert_eq!(entry.isa.ordinal(), Isa::ADDIW.ordinal() + k);
        assert_eq!(entry.decoder, entry.isa.format());
    }
    let m32 = isa_lut_m32();
    for (k, entry) in m32.iter().enumerate() {
        assert_eq!(entry.isa.ordinal(), Isa::DIV.ordinal() + k);
        assert_eq!(entry.decoder, Format::R);
    }
    let m64 = isa_lut_m64();
    for (k, entry) in m64.iter().enumerate() {
        assert_eq!(entry.isa.ordinal(), Isa::DIVUW.ordinal() + k);
        assert_eq!(entry.decoder, Format::R);
    }
    assert_eq!(Isa::ADD.format(), Format::R);
    assert_eq!(Isa::ADDI.format(), Format::I);
    assert_eq!(Isa::SW.format(), Format::S);
    assert_eq!(Isa::BNE.format(), Format::B);
    assert_eq!(Isa::LUI.format(), Format::U);
    assert_eq!(Isa::JAL.format(), Format::J);
    assert_eq!(Isa::ECALL.format(), Format::Empty);
    assert_eq!(Isa::UNKNOWN.format(), Format::Empty);
}

#[test]
fn splice_overwrites_its_range_only() {
    let mut table = [IsaEntry::unknown(); ISA_SIZE];
    splice(&mut table, Isa::DIV.ordinal(), &isa_lut_m32());
    for slot in 0..ISA_SIZE {
        if (53..=60).contains(&slot) {
            assert_eq!(table[slot].isa.ordinal(), slot);
            assert_eq!(table[slot].decoder, Format::R);
        } else {
            assert_eq!(table[slot], IsaEntry::unknown());
        }
    }
    assert_eq!(IsaEntry::unknown(), IsaEntry { isa: Isa::UNKNOWN, decoder: Format::Empty });
}
