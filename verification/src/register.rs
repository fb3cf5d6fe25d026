//! Register-name resolution.
//!
//! A register operand is written either in numeric form `x0`..`x31` or
//! as one of the standard ABI aliases (`zero`, `ra`, `sp`, `gp`, `tp`,
//! `t0`-`t6`, `s0`-`s11` with `fp` for `s0`, `a0`-`a7`).  Both schemes
//! name the same thirty-two indices.  Tokens are expected in lower
//! case.

use vstd::prelude::*;

use crate::errors::{asm_error, AsmError, AsmErrorKind};
use crate::immediate::err_view;
use crate::text::str_eq;

verus! {

/// The register table: the 5-bit index a token names, or `None` when
/// the token is no register spelling at all.
pub open spec fn spec_register(s: Seq<char>) -> Option<u8> {
    if s == "x0"@ || s == "zero"@ {
        Some(0u8)
    } else if s == "x1"@ || s == "ra"@ {
        Some(1u8)
    } else if s == "x2"@ || s == "sp"@ {
        Some(2u8)
    } else if s == "x3"@ || s == "gp"@ {
        Some(3u8)
    } else if s == "x4"@ || s == "tp"@ {
        Some(4u8)
    } else if s == "x5"@ || s == "t0"@ {
        Some(5u8)
    } else if s == "x6"@ || s == "t1"@ {
        Some(6u8)
    } else if s == "x7"@ || s == "t2"@ {
        Some(7u8)
    } else if s == "x8"@ || s == "s0"@ || s == "fp"@ {
        Some(8u8)
    } else if s == "x9"@ || s == "s1"@ {
        Some(9u8)
    } else if s == "x10"@ || s == "a0"@ {
        Some(10u8)
    } else if s == "x11"@ || s == "a1"@ {
        Some(11u8)
    } else if s == "x12"@ || s == "a2"@ {
        Some(12u8)
    } else if s == "x13"@ || s == "a3"@ {
        Some(13u8)
    } else if s == "x14"@ || s == "a4"@ {
        Some(14u8)
    } else if s == "x15"@ || s == "a5"@ {
        Some(15u8)
    } else if s == "x16"@ || s == "a6"@ {
        Some(16u8)
    } else if s == "x17"@ || s == "a7"@ {
        Some(17u8)
    } else if s == "x18"@ || s == "s2"@ {
        Some(18u8)
    } else if s == "x19"@ || s == "s3"@ {
        Some(19u8)
    } else if s == "x20"@ || s == "s4"@ {
        Some(20u8)
    } else if s == "x21"@ || s == "s5"@ {
        Some(21u8)
    } else if s == "x22"@ || s == "s6"@ {
        Some(22u8)
    } else if s == "x23"@ || s == "s7"@ {
        Some(23u8)
    } else if s == "x24"@ || s == "s8"@ {
        Some(24u8)
    } else if s == "x25"@ || s == "s9"@ {
        Some(25u8)
    } else if s == "x26"@ || s == "s10"@ {
        Some(26u8)
    } else if s == "x27"@ || s == "s11"@ {
        Some(27u8)
    } else if s == "x28"@ || s == "t3"@ {
        Some(28u8)
    } else if s == "x29"@ || s == "t4"@ {
        Some(29u8)
    } else if s == "x30"@ || s == "t5"@ {
        Some(30u8)
    } else if s == "x31"@ || s == "t6"@ {
        Some(31u8)
    } else {
        None
    }
}

/// Resolves a register token to its 5-bit index, or reports
/// `InvalidRegisterName` naming the token and line.
pub fn parse_register(register: &str, line: usize) -> (r: Result<u8, AsmError>)
    ensures
        (match r {
            Ok(i) => spec_register(register@) == Some(i) && i < 32,
            Err(e) => spec_register(register@) is None && e@ == err_view(
                AsmErrorKind::InvalidRegisterName,
                line as nat,
                register@,
            ),
        }),
{
    if str_eq(register, "x0") || str_eq(register, "zero") {
        Ok(0)
    } else if str_eq(register, "x1") || str_eq(register, "ra") {
        Ok(1)
    } else if str_eq(register, "x2") || str_eq(register, "sp") {
        Ok(2)
    } else if str_eq(register, "x3") || str_eq(register, "gp") {
        Ok(3)
    } else if str_eq(register, "x4") || str_eq(register, "tp") {
        Ok(4)
    } else if str_eq(register, "x5") || str_eq(register, "t0") {
        Ok(5)
    } else if str_eq(register, "x6") || str_eq(register, "t1") {
        Ok(6)
    } else if str_eq(register, "x7") || str_eq(register, "t2") {
        Ok(7)
    } else if str_eq(register, "x8") || str_eq(register, "s0") || str_eq(register, "fp") {
        Ok(8)
    } else if str_eq(register, "x9") || str_eq(register, "s1") {
        Ok(9)
    } else if str_eq(register, "x10") || str_eq(register, "a0") {
        Ok(10)
    } else if str_eq(register, "x11") || str_eq(register, "a1") {
        Ok(11)
    } else if str_eq(register, "x12") || str_eq(register, "a2") {
        Ok(12)
    } else if str_eq(register, "x13") || str_eq(register, "a3") {
        Ok(13)
    } else if str_eq(register, "x14") || str_eq(register, "a4") {
        Ok(14)
    } else if str_eq(register, "x15") || str_eq(register, "a5") {
        Ok(15)
    } else if str_eq(register, "x16") || str_eq(register, "a6") {
        Ok(16)
    } else if str_eq(register, "x17") || str_eq(register, "a7") {
        Ok(17)
    } else if str_eq(register, "x18") || str_eq(register, "s2") {
        Ok(18)
    } else if str_eq(register, "x19") || str_eq(register, "s3") {
        Ok(19)
    } else if str_eq(register, "x20") || str_eq(register, "s4") {
        Ok(20)
    } else if str_eq(register, "x21") || str_eq(register, "s5") {
        Ok(21)
    } else if str_eq(register, "x22") || str_eq(register, "s6") {
        Ok(22)
    } else if str_eq(register, "x23") || str_eq(register, "s7") {
        Ok(23)
    } else if str_eq(register, "x24") || str_eq(register, "s8") {
        Ok(24)
    } else if str_eq(register, "x25") || str_eq(register, "s9") {
        Ok(25)
    } else if str_eq(register, "x26") || str_eq(register, "s10") {
        Ok(26)
    } else if str_eq(register, "x27") || str_eq(register, "s11") {
        Ok(27)
    } else if str_eq(register, "x28") || str_eq(register, "t3") {
        Ok(28)
    } else if str_eq(register, "x29") || str_eq(register, "t4") {
        Ok(29)
    } else if str_eq(register, "x30") || str_eq(register, "t5") {
        Ok(30)
    } else if str_eq(register, "x31") || str_eq(register, "t6") {
        Ok(31)
    } else {
        Err(asm_error(AsmErrorKind::InvalidRegisterName, line, register))
    }
}

} // verus!
