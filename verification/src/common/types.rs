//! The same bits read as another integer type.
use vstd::prelude::*;

verus! {

/// An unsigned integer read as the signed integer of the same width.
pub trait AsSigned {
    type Signed;

    fn as_s(&self) -> Self::Signed;
}

impl AsSigned for u32 {
    type Signed = i32;

    fn as_s(&self) -> (signed: i32)
        ensures
            signed == *self as i32,
    {
        *self as i32
    }
}

impl AsSigned for u64 {
    type Signed = i64;

    fn as_s(&self) -> (signed: i64)
        ensures
            signed == *self as i64,
    {
        *self as i64
    }
}

/// A signed integer read as the unsigned integer of the same width.
pub trait AsUnsigned {
    type Unsigned;

    fn as_u(&self) -> Self::Unsigned;
}

impl AsUnsigned for i32 {
    type Unsigned = u32;

    fn as_u(&self) -> (unsigned: u32)
        ensures
            unsigned == *self as u32,
    {
        *self as u32
    }
}

impl AsUnsigned for i64 {
    type Unsigned = u64;

    fn as_u(&self) -> (unsigned: u64)
        ensures
            unsigned == *self as u64,
    {
        *self as u64
    }
}

/// The low byte, halfword and word of an integer.
pub trait As {
    fn as_byte(&self) -> u8;

    fn as_half(&self) -> u16;

    fn as_word(&self) -> u32;
}

impl As for u32 {
    fn as_byte(&self) -> (byte: u8)
        ensures
            byte == *self as u8,
    {
        *self as u8
    }

    fn as_half(&self) -> (half: u16)
        ensures
            half == *self as u16,
    {
        *self as u16
    }

    fn as_word(&self) -> (word: u32)
        ensures
            word == *self,
    {
        *self
    }
}

impl As for i32 {
    fn as_byte(&self) -> (byte: u8)
        ensures
            byte == *self as u8,
    {
        *self as u8
    }

    fn as_half(&self) -> (half: u16)
        ensures
            half == *self as u16,
    {
        *self as u16
    }

    fn as_word(&self) -> (word: u32)
        ensures
            word == *self as u32,
    {
        *self as u32
    }
}

impl As for u64 {
    fn as_byte(&self) -> (byte: u8)
        ensures
            byte == *self as u8,
    {
        *self as u8
    }

    fn as_half(&self) -> (half: u16)
        ensures
            half == *self as u16,
    {
        *self as u16
    }

    fn as_word(&self) -> (word: u32)
        ensures
            word == *self as u32,
    {
        *self as u32
    }
}

impl As for i64 {
    fn as_byte(&self) -> (byte: u8)
        ensures
            byte == *self as u8,
    {
        *self as u8
    }

    fn as_half(&self) -> (half: u16)
        ensures
            half == *self as u16,
    {
        *self as u16
    }

    fn as_word(&self) -> (word: u32)
        ensures
            word == *self as u32,
    {
        *self as u32
    }
}

} // verus!
