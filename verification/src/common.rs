//! Items shared by the components of a hart: mnemonics, instruction records,
//! the classifier and the dispatch tables.
use vstd::prelude::*;
use vstd::string::StringExecFns;
use crate::common::text::{decimal, decimal_string};

pub mod decoder;
pub mod fields;
pub mod instruction;
pub mod instruction32;
pub mod isa;
pub mod text;
pub mod types;

verus! {

/// Returns true if the given number is even, false if it is odd.
pub fn is_even(num: u64) -> (even: bool)
    ensures
        even == (num % 2 == 0),
{
    assert(num & 1 == num % 2) by (bit_vector);
    num & 1 == 0
}

/// The bytes of a `u16` or `u32`, in little-endian.
///
/// `slice[0]` will have the LSB and `slice[N - 1]` the MSB.
pub trait AsSlice<const N: usize> {
    fn as_slice_le(self) -> [u8; N];
}

impl AsSlice<2> for u16 {
    fn as_slice_le(self) -> (bytes: [u8; 2])
        ensures
            bytes[0] == self % 0x100,
            bytes[1] == self / 0x100,
    {
        assert(self as u8 == self % 0x100 && (self >> 8) as u8 == self / 0x100) by (bit_vector);
        [self as u8, (self >> 8) as u8]
    }
}

impl AsSlice<4> for u32 {
    fn as_slice_le(self) -> (bytes: [u8; 4])
        ensures
            bytes[0] == self % 0x100,
            bytes[1] == self / 0x100 % 0x100,
            bytes[2] == self / 0x1_0000 % 0x100,
            bytes[3] == self / 0x100_0000,
    {
        assert(self as u8 == self % 0x100 && (self >> 8) as u8 == self / 0x100 % 0x100 && (self
            >> 16) as u8 == self / 0x1_0000 % 0x100 && (self >> 24) as u8 == self / 0x100_0000)
            by (bit_vector);
        [self as u8, (self >> 8) as u8, (self >> 16) as u8, (self >> 24) as u8]
    }
}

/// The name of integer register `reg`: its ABI name where `abi_name` is set,
/// `x` and its number where it is not.
pub open spec fn x_register_name(reg: u8, abi_name: bool) -> Seq<char> {
    if abi_name {
        match reg {
            0 => "zero"@,
            1 => "ra"@,
            2 => "sp"@,
            3 => "gp"@,
            4 => "tp"@,
            5 => "t0"@,
            6 => "t1"@,
            7 => "t2"@,
            8 => "s0"@,
            9 => "s1"@,
            10 => "a0"@,
            11 => "a1"@,
            12 => "a2"@,
            13 => "a3"@,
            14 => "a4"@,
            15 => "a5"@,
            16 => "a6"@,
            17 => "a7"@,
            18 => "s2"@,
            19 => "s3"@,
            20 => "s4"@,
            21 => "s5"@,
            22 => "s6"@,
            23 => "s7"@,
            24 => "s8"@,
            25 => "s9"@,
            26 => "s10"@,
            27 => "s11"@,
            28 => "t3"@,
            29 => "t4"@,
            30 => "t5"@,
            31 => "t6"@,
            _ => "Unknown register"@,
        }
    } else {
        "x"@ + decimal(reg as nat)
    }
}

/// The name of floating point register `reg`: its ABI name where `abi_name`
/// is set, `f` and its number where it is not.
pub open spec fn f_register_name(reg: u8, abi_name: bool) -> Seq<char> {
    if abi_name {
        match reg {
            0 => "ft0"@,
            1 => "ft1"@,
            2 => "ft2"@,
            3 => "ft3"@,
            4 => "ft4"@,
            5 => "ft5"@,
            6 => "ft6"@,
            7 => "ft7"@,
            8 => "fs0"@,
            9 => "fs1"@,
            10 => "fa0"@,
            11 => "fa1"@,
            12 => "fa2"@,
            13 => "fa3"@,
            14 => "fa4"@,
            15 => "fa5"@,
            16 => "fa6"@,
            17 => "fa7"@,
            18 => "fs2"@,
            19 => "fs3"@,
            20 => "fs4"@,
            21 => "fs5"@,
            22 => "fs6"@,
            23 => "fs7"@,
            24 => "fs8"@,
            25 => "fs9"@,
            26 => "fs10"@,
            27 => "fs11"@,
            28 => "ft8"@,
            29 => "ft9"@,
            30 => "ft10"@,
            31 => "ft11"@,
            _ => "Unknown register"@,
        }
    } else {
        "f"@ + decimal(reg as nat)
    }
}

/// Get the integer register name associated with its number.
///
/// If `abi_name` is true, returns the ABI name as in table 25.1. Otherwise returns `x0`, `x1`, etc.
pub fn get_x_register_name(reg: u8, abi_name: bool) -> (name: String)
    ensures
        name@ == x_register_name(reg, abi_name),
{
    if abi_name {
        String::from_str(
            match reg {
                0 => "zero",
                1 => "ra",
                2 => "sp",
                3 => "gp",
                4 => "tp",
                5 => "t0",
                6 => "t1",
                7 => "t2",
                8 => "s0",
                9 => "s1",
                10 => "a0",
                11 => "a1",
                12 => "a2",
                13 => "a3",
                14 => "a4",
                15 => "a5",
                16 => "a6",
                17 => "a7",
                18 => "s2",
                19 => "s3",
                20 => "s4",
                21 => "s5",
                22 => "s6",
                23 => "s7",
                24 => "s8",
                25 => "s9",
                26 => "s10",
                27 => "s11",
                28 => "t3",
                29 => "t4",
                30 => "t5",
                31 => "t6",
                _ => "Unknown register",
            },
        )
    } else {
        let mut name = String::from_str("x");
        name.append(decimal_string(reg as u64).as_str());
        name
    }
}

/// Get the floating point register name associated with its number.
///
/// If `abi_name` is true, returns the ABI name as in table 25.1. Otherwise returns `f0`, `f1`, etc.
pub fn get_f_register_name(reg: u8, abi_name: bool) -> (name: String)
    ensures
        name@ == f_register_name(reg, abi_name),
{
    if abi_name {
        String::from_str(
            match reg {
                0 => "ft0",
                1 => "ft1",
                2 => "ft2",
                3 => "ft3",
                4 => "ft4",
                5 => "ft5",
                6 => "ft6",
                7 => "ft7",
                8 => "fs0",
                9 => "fs1",
                10 => "fa0",
                11 => "fa1",
                12 => "fa2",
                13 => "fa3",
                14 => "fa4",
                15 => "fa5",
                16 => "fa6",
                17 => "fa7",
                18 => "fs2",
                19 => "fs3",
                20 => "fs4",
                21 => "fs5",
                22 => "fs6",
                23 => "fs7",
                24 => "fs8",
                25 => "fs9",
                26 => "fs10",
                27 => "fs11",
                28 => "ft8",
                29 => "ft9",
                30 => "ft10",
                31 => "ft11",
                _ => "Unknown register",
            },
        )
    } else {
        let mut name = String::from_str("f");
        name.append(decimal_string(reg as u64).as_str());
        name
    }
}

} // verus!
