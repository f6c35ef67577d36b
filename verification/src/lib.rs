//! A RISC-V hart: fetch, classify, decode and execute, for the base integer
//! instruction sets RV32I and RV64I with the multiply/divide extension, on a
//! register file of 16 or 32 registers.
//!
//! Every function of this crate is verified with Verus. The behaviour of a hart
//! is stated over a mathematical model of its state ([`rvi::semantics`] and
//! [`rvi::semantics64`]); the executable harts [`rvi::RV32I`] and
//! [`rvi::RV64I`] are proved to follow it.
#![allow(non_snake_case)]
#![allow(non_camel_case_types)]

pub mod common;
pub mod public;
pub mod rvi;
