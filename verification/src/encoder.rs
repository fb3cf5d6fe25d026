//! Per-format instruction encoding.
//!
//! One pure function per RISC-V format assembles a 32-bit word from an
//! opcode/funct lookup and already-validated operand fields:
//!
//! * R: `funct7 | rs2 | rs1 | funct3 | rd | opcode`
//! * I: `imm[11:0] | rs1 | funct3 | rd | opcode`
//! * S: `imm[11:5] | rs2 | rs1 | funct3 | imm[4:0] | opcode`
//! * B: `imm[12] | imm[10:5] | rs2 | rs1 | funct3 | imm[4:1] | imm[11] | opcode`
//! * U: `imm[31:12] | rd | opcode`
//! * J: `imm[20] | imm[10:1] | imm[11] | imm[19:12] | rd | opcode`
//!
//! Each encoder demands (as a precondition) a mnemonic of its own
//! format: the driver dispatches by mnemonic before calling, so an
//! unknown mnemonic here would be a dispatch bug, not user input.
//! The contracts state every word as a sum of its shifted fields.

use vstd::prelude::*;

use crate::errors::AsmErrorKind;
use crate::text::str_eq;

verus! {

// ------------------------------------------------------------------
// R format: register-register arithmetic and the RV32A atomics.
// ------------------------------------------------------------------

/// Opcode, funct3 and funct7 of every R-format mnemonic: the RV32I
/// register-register group, the RV32M multiply/divide group (both
/// opcode 0x33) and the RV32A atomics (opcode 0x2f), whose `.aq` and
/// `.rl` ordering suffixes set the two low bits of funct7.
pub open spec fn spec_r_fields(s: Seq<char>) -> Option<(u32, u32, u32)> {
    if s == "add"@ {
        Some((0x33u32, 0u32, 0u32))
    } else if s == "sub"@ {
        Some((0x33u32, 0u32, 32u32))
    } else if s == "xor"@ {
        Some((0x33u32, 4u32, 0u32))
    } else if s == "or"@ {
        Some((0x33u32, 6u32, 0u32))
    } else if s == "and"@ {
        Some((0x33u32, 7u32, 0u32))
    } else if s == "sll"@ {
        Some((0x33u32, 1u32, 0u32))
    } else if s == "srl"@ {
        Some((0x33u32, 5u32, 0u32))
    } else if s == "sra"@ {
        Some((0x33u32, 5u32, 32u32))
    } else if s == "slt"@ {
        Some((0x33u32, 2u32, 0u32))
    } else if s == "sltu"@ {
        Some((0x33u32, 3u32, 0u32))
    } else if s == "mul"@ {
        Some((0x33u32, 0u32, 1u32))
    } else if s == "mulh"@ {
        Some((0x33u32, 1u32, 1u32))
    } else if s == "mulhsu"@ {
        Some((0x33u32, 2u32, 1u32))
    } else if s == "mulhu"@ {
        Some((0x33u32, 3u32, 1u32))
    } else if s == "div"@ {
        Some((0x33u32, 4u32, 1u32))
    } else if s == "divu"@ {
        Some((0x33u32, 5u32, 1u32))
    } else if s == "rem"@ {
        Some((0x33u32, 6u32, 1u32))
    } else if s == "remu"@ {
        Some((0x33u32, 7u32, 1u32))
    } else if s == "lr.w"@ {
        Some((0x2fu32, 2u32, 8u32))
    } else if s == "lr.w.aq"@ {
        Some((0x2fu32, 2u32, 10u32))
    } else if s == "lr.w.rl"@ {
        Some((0x2fu32, 2u32, 9u32))
    } else if s == "lr.w.aq.rl"@ {
        Some((0x2fu32, 2u32, 11u32))
    } else if s == "sc.w"@ {
        Some((0x2fu32, 2u32, 12u32))
    } else if s == "sc.w.aq"@ {
        Some((0x2fu32, 2u32, 14u32))
    } else if s == "sc.w.rl"@ {
        Some((0x2fu32, 2u32, 13u32))
    } else if s == "sc.w.aq.rl"@ {
        Some((0x2fu32, 2u32, 15u32))
    } else if s == "amoswap.w"@ {
        Some((0x2fu32, 2u32, 4u32))
    } else if s == "amoswap.w.aq"@ {
        Some((0x2fu32, 2u32, 6u32))
    } else if s == "amoswap.w.rl"@ {
        Some((0x2fu32, 2u32, 5u32))
    } else if s == "amoswap.w.aq.rl"@ {
        Some((0x2fu32, 2u32, 7u32))
    } else if s == "amoadd.w"@ {
        Some((0x2fu32, 2u32, 0u32))
    } else if s == "amoadd.w.aq"@ {
        Some((0x2fu32, 2u32, 2u32))
    } else if s == "amoadd.w.rl"@ {
        Some((0x2fu32, 2u32, 1u32))
    } else if s == "amoadd.w.aq.rl"@ {
        Some((0x2fu32, 2u32, 3u32))
    } else if s == "amoand.w"@ {
        Some((0x2fu32, 2u32, 48u32))
    } else if s == "amoand.w.aq"@ {
        Some((0x2fu32, 2u32, 50u32))
    } else if s == "amoand.w.rl"@ {
        Some((0x2fu32, 2u32, 49u32))
    } else if s == "amoand.w.aq.rl"@ {
        Some((0x2fu32, 2u32, 51u32))
    } else if s == "amoor.w"@ {
        Some((0x2fu32, 2u32, 32u32))
    } else if s == "amoor.w.aq"@ {
        Some((0x2fu32, 2u32, 34u32))
    } else if s == "amoor.w.rl"@ {
        Some((0x2fu32, 2u32, 33u32))
    } else if s == "amoor.w.aq.rl"@ {
        Some((0x2fu32, 2u32, 35u32))
    } else if s == "amoxor.w"@ {
        Some((0x2fu32, 2u32, 16u32))
    } else if s == "amoxor.w.aq"@ {
        Some((0x2fu32, 2u32, 18u32))
    } else if s == "amoxor.w.rl"@ {
        Some((0x2fu32, 2u32, 17u32))
    } else if s == "amoxor.w.aq.rl"@ {
        Some((0x2fu32, 2u32, 19u32))
    } else if s == "amomax.w"@ {
        Some((0x2fu32, 2u32, 80u32))
    } else if s == "amomax.w.aq"@ {
        Some((0x2fu32, 2u32, 82u32))
    } else if s == "amomax.w.rl"@ {
        Some((0x2fu32, 2u32, 81u32))
    } else if s == "amomax.w.aq.rl"@ {
        Some((0x2fu32, 2u32, 83u32))
    } else if s == "amomin.w"@ {
        Some((0x2fu32, 2u32, 64u32))
    } else if s == "amomin.w.aq"@ {
        Some((0x2fu32, 2u32, 66u32))
    } else if s == "amomin.w.rl"@ {
        Some((0x2fu32, 2u32, 65u32))
    } else if s == "amomin.w.aq.rl"@ {
        Some((0x2fu32, 2u32, 67u32))
    } else {
        None
    }
}

/// True when `s` names an R-format instruction.
pub open spec fn is_r_mnemonic(s: Seq<char>) -> bool {
    spec_r_fields(s) is Some
}

/// The R-format word: funct7, rs2, rs1, funct3, rd and opcode at their
/// bit positions.
pub open spec fn spec_encode_r(mn: Seq<char>, rd: u8, rs1: u8, rs2: u8) -> int
    recommends
        is_r_mnemonic(mn),
{
    let t = spec_r_fields(mn)->0;
    t.2 * 0x2000000 + rs2 * 0x100000 + rs1 * 0x8000 + t.1 * 0x1000 + rd * 0x80 + t.0
}

/// Looks up the opcode/funct fields of an R-format mnemonic.
pub fn r_fields(instruction: &str) -> (r: Option<(u32, u32, u32)>)
    ensures
        r == spec_r_fields(instruction@),
        r matches Some(t) ==> t.0 < 128 && t.1 < 8 && t.2 < 128,
{
    if str_eq(instruction, "add") {
        Some((0x33, 0, 0))
    } else if str_eq(instruction, "sub") {
        Some((0x33, 0, 32))
    } else if str_eq(instruction, "xor") {
        Some((0x33, 4, 0))
    } else if str_eq(instruction, "or") {
        Some((0x33, 6, 0))
    } else if str_eq(instruction, "and") {
        Some((0x33, 7, 0))
    } else if str_eq(instruction, "sll") {
        Some((0x33, 1, 0))
    } else if str_eq(instruction, "srl") {
        Some((0x33, 5, 0))
    } else if str_eq(instruction, "sra") {
        Some((0x33, 5, 32))
    } else if str_eq(instruction, "slt") {
        Some((0x33, 2, 0))
    } else if str_eq(instruction, "sltu") {
        Some((0x33, 3, 0))
    } else if str_eq(instruction, "mul") {
        Some((0x33, 0, 1))
    } else if str_eq(instruction, "mulh") {
        Some((0x33, 1, 1))
    } else if str_eq(instruction, "mulhsu") {
        Some((0x33, 2, 1))
    } else if str_eq(instruction, "mulhu") {
        Some((0x33, 3, 1))
    } else if str_eq(instruction, "div") {
        Some((0x33, 4, 1))
    } else if str_eq(instruction, "divu") {
        Some((0x33, 5, 1))
    } else if str_eq(instruction, "rem") {
        Some((0x33, 6, 1))
    } else if str_eq(instruction, "remu") {
        Some((0x33, 7, 1))
    } else if str_eq(instruction, "lr.w") {
        Some((0x2f, 2, 8))
    } else if str_eq(instruction, "lr.w.aq") {
        Some((0x2f, 2, 10))
    } else if str_eq(instruction, "lr.w.rl") {
        Some((0x2f, 2, 9))
    } else if str_eq(instruction, "lr.w.aq.rl") {
        Some((0x2f, 2, 11))
    } else if str_eq(instruction, "sc.w") {
        Some((0x2f, 2, 12))
    } else if str_eq(instruction, "sc.w.aq") {
        Some((0x2f, 2, 14))
    } else if str_eq(instruction, "sc.w.rl") {
        Some((0x2f, 2, 13))
    } else if str_eq(instruction, "sc.w.aq.rl") {
        Some((0x2f, 2, 15))
    } else if str_eq(instruction, "amoswap.w") {
        Some((0x2f, 2, 4))
    } else if str_eq(instruction, "amoswap.w.aq") {
        Some((0x2f, 2, 6))
    } else if str_eq(instruction, "amoswap.w.rl") {
        Some((0x2f, 2, 5))
    } else if str_eq(instruction, "amoswap.w.aq.rl") {
        Some((0x2f, 2, 7))
    } else if str_eq(instruction, "amoadd.w") {
        Some((0x2f, 2, 0))
    } else if str_eq(instruction, "amoadd.w.aq") {
        Some((0x2f, 2, 2))
    } else if str_eq(instruction, "amoadd.w.rl") {
        Some((0x2f, 2, 1))
    } else if str_eq(instruction, "amoadd.w.aq.rl") {
        Some((0x2f, 2, 3))
    } else if str_eq(instruction, "amoand.w") {
        Some((0x2f, 2, 48))
    } else if str_eq(instruction, "amoand.w.aq") {
        Some((0x2f, 2, 50))
    } else if str_eq(instruction, "amoand.w.rl") {
        Some((0x2f, 2, 49))
    } else if str_eq(instruction, "amoand.w.aq.rl") {
        Some((0x2f, 2, 51))
    } else if str_eq(instruction, "amoor.w") {
        Some((0x2f, 2, 32))
    } else if str_eq(instruction, "amoor.w.aq") {
        Some((0x2f, 2, 34))
    } else if str_eq(instruction, "amoor.w.rl") {
        Some((0x2f, 2, 33))
    } else if str_eq(instruction, "amoor.w.aq.rl") {
        Some((0x2f, 2, 35))
    } else if str_eq(instruction, "amoxor.w") {
        Some((0x2f, 2, 16))
    } else if str_eq(instruction, "amoxor.w.aq") {
        Some((0x2f, 2, 18))
    } else if str_eq(instruction, "amoxor.w.rl") {
        Some((0x2f, 2, 17))
    } else if str_eq(instruction, "amoxor.w.aq.rl") {
        Some((0x2f, 2, 19))
    } else if str_eq(instruction, "amomax.w") {
        Some((0x2f, 2, 80))
    } else if str_eq(instruction, "amomax.w.aq") {
        Some((0x2f, 2, 82))
    } else if str_eq(instruction, "amomax.w.rl") {
        Some((0x2f, 2, 81))
    } else if str_eq(instruction, "amomax.w.aq.rl") {
        Some((0x2f, 2, 83))
    } else if str_eq(instruction, "amomin.w") {
        Some((0x2f, 2, 64))
    } else if str_eq(instruction, "amomin.w.aq") {
        Some((0x2f, 2, 66))
    } else if str_eq(instruction, "amomin.w.rl") {
        Some((0x2f, 2, 65))
    } else if str_eq(instruction, "amomin.w.aq.rl") {
        Some((0x2f, 2, 67))
    } else {
        None
    }
}

/// Encodes one R-format instruction from its mnemonic and three
/// resolved register indices.
pub fn parse_r_type(instruction: &str, rd: u8, rs1: u8, rs2: u8) -> (r: u32)
    requires
        is_r_mnemonic(instruction@),
        rd < 32,
        rs1 < 32,
        rs2 < 32,
    ensures
        r as int == spec_encode_r(instruction@, rd, rs1, rs2),
{
    let (op, f3, f7) = match r_fields(instruction) {
        Some(t) => t,
        None => unreached(),
    };
    let rdw = rd as u32;
    let rs1w = rs1 as u32;
    let rs2w = rs2 as u32;
    let w = (f7 << 25) | (rs2w << 20) | (rs1w << 15) | (f3 << 12) | (rdw << 7) | op;
    proof {
        assert(w as int == f7 * 0x2000000 + rs2w * 0x100000 + rs1w * 0x8000 + f3 * 0x1000 + rdw
            * 0x80 + op) by (bit_vector)
            requires
                w == (f7 << 25) | (rs2w << 20) | (rs1w << 15) | (f3 << 12) | (rdw << 7) | op,
                f7 < 128,
                rs2w < 32,
                rs1w < 32,
                f3 < 8,
                rdw < 32,
                op < 128,
        ;
    }
    w
}

// ------------------------------------------------------------------
// I format: immediate arithmetic, shifts, loads, jalr and the
// environment calls.
// ------------------------------------------------------------------

/// Opcode and funct3 of every I-format mnemonic.
pub open spec fn spec_i_fields(s: Seq<char>) -> Option<(u32, u32)> {
    if s == "addi"@ {
        Some((0x13u32, 0u32))
    } else if s == "xori"@ {
        Some((0x13u32, 4u32))
    } else if s == "ori"@ {
        Some((0x13u32, 6u32))
    } else if s == "andi"@ {
        Some((0x13u32, 7u32))
    } else if s == "slli"@ {
        Some((0x13u32, 1u32))
    } else if s == "srli"@ {
        Some((0x13u32, 5u32))
    } else if s == "srai"@ {
        Some((0x13u32, 5u32))
    } else if s == "slti"@ {
        Some((0x13u32, 2u32))
    } else if s == "sltiu"@ {
        Some((0x13u32, 3u32))
    } else if s == "lb"@ {
        Some((0x03u32, 0u32))
    } else if s == "lh"@ {
        Some((0x03u32, 1u32))
    } else if s == "lw"@ {
        Some((0x03u32, 2u32))
    } else if s == "lbu"@ {
        Some((0x03u32, 4u32))
    } else if s == "lhu"@ {
        Some((0x03u32, 5u32))
    } else if s == "jalr"@ {
        Some((0x67u32, 0u32))
    } else if s == "ecall"@ {
        Some((0x73u32, 0u32))
    } else if s == "ebreak"@ {
        Some((0x73u32, 0u32))
    } else {
        None
    }
}

/// True when `s` names an I-format instruction.
pub open spec fn is_i_mnemonic(s: Seq<char>) -> bool {
    spec_i_fields(s) is Some
}

/// True for the shift-immediate instructions, whose immediate is a
/// shift amount in [0, 31].
pub open spec fn is_shift_mnemonic(s: Seq<char>) -> bool {
    s == "slli"@ || s == "srli"@ || s == "srai"@
}

/// True for the load instructions, whose written operand order is
/// `rd, offset(rs1)`.
pub open spec fn is_load_mnemonic(s: Seq<char>) -> bool {
    s == "lb"@ || s == "lh"@ || s == "lw"@ || s == "lbu"@ || s == "lhu"@
}

/// True for the environment instructions, which take no operands.
pub open spec fn is_env_mnemonic(s: Seq<char>) -> bool {
    s == "ecall"@ || s == "ebreak"@
}

/// The I-format word, or `ShiftAmountOutOfRange` when a shift
/// instruction names an amount above 31.  `srai` is told apart from
/// `srli` by bit 10 of the immediate field.
pub open spec fn spec_encode_i(mn: Seq<char>, rd: u8, rs1: u8, imm: u16) -> Result<
    int,
    AsmErrorKind,
>
    recommends
        is_i_mnemonic(mn),
        imm < 4096,
{
    if is_shift_mnemonic(mn) && imm > 31 {
        Err(AsmErrorKind::ShiftAmountOutOfRange)
    } else {
        let t = spec_i_fields(mn)->0;
        let f: int = if mn == "srai"@ {
            imm + 0x400
        } else {
            imm as int
        };
        Ok(f * 0x100000 + rs1 * 0x8000 + t.1 * 0x1000 + rd * 0x80 + t.0)
    }
}

/// Looks up the opcode/funct3 fields of an I-format mnemonic.
pub fn i_fields(instruction: &str) -> (r: Option<(u32, u32)>)
    ensures
        r == spec_i_fields(instruction@),
        r matches Some(t) ==> t.0 < 128 && t.1 < 8,
{
    if str_eq(instruction, "addi") {
        Some((0x13, 0))
    } else if str_eq(instruction, "xori") {
        Some((0x13, 4))
    } else if str_eq(instruction, "ori") {
        Some((0x13, 6))
    } else if str_eq(instruction, "andi") {
        Some((0x13, 7))
    } else if str_eq(instruction, "slli") {
        Some((0x13, 1))
    } else if str_eq(instruction, "srli") {
        Some((0x13, 5))
    } else if str_eq(instruction, "srai") {
        Some((0x13, 5))
    } else if str_eq(instruction, "slti") {
        Some((0x13, 2))
    } else if str_eq(instruction, "sltiu") {
        Some((0x13, 3))
    } else if str_eq(instruction, "lb") {
        Some((0x03, 0))
    } else if str_eq(instruction, "lh") {
        Some((0x03, 1))
    } else if str_eq(instruction, "lw") {
        Some((0x03, 2))
    } else if str_eq(instruction, "lbu") {
        Some((0x03, 4))
    } else if str_eq(instruction, "lhu") {
        Some((0x03, 5))
    } else if str_eq(instruction, "jalr") {
        Some((0x67, 0))
    } else if str_eq(instruction, "ecall") {
        Some((0x73, 0))
    } else if str_eq(instruction, "ebreak") {
        Some((0x73, 0))
    } else {
        None
    }
}

/// Encodes one I-format instruction; the immediate is the 12-bit field
/// already produced by the immediate parser.
pub fn parse_i_type(instruction: &str, rd: u8, rs1: u8, imm: u16) -> (r: Result<
    u32,
    AsmErrorKind,
>)
    requires
        is_i_mnemonic(instruction@),
        rd < 32,
        rs1 < 32,
        imm < 4096,
    ensures
        (match r {
            Ok(w) => spec_encode_i(instruction@, rd, rs1, imm) == Ok::<int, AsmErrorKind>(
                w as int,
            ),
            Err(k) => spec_encode_i(instruction@, rd, rs1, imm) == Err::<int, AsmErrorKind>(k),
        }),
{
    let shift = str_eq(instruction, "slli") || str_eq(instruction, "srli") || str_eq(
        instruction,
        "srai",
    );
    if shift && imm > 31 {
        return Err(AsmErrorKind::ShiftAmountOutOfRange);
    }
    let f: u32 = if str_eq(instruction, "srai") {
        imm as u32 + 0x400
    } else {
        imm as u32
    };
    let (op, f3) = match i_fields(instruction) {
        Some(t) => t,
        None => unreached(),
    };
    let rdw = rd as u32;
    let rs1w = rs1 as u32;
    let w = (f << 20) | (rs1w << 15) | (f3 << 12) | (rdw << 7) | op;
    proof {
        assert(w as int == f * 0x100000 + rs1w * 0x8000 + f3 * 0x1000 + rdw * 0x80 + op)
            by (bit_vector)
            requires
                w == (f << 20) | (rs1w << 15) | (f3 << 12) | (rdw << 7) | op,
                f < 4096,
                rs1w < 32,
                f3 < 8,
                rdw < 32,
                op < 128,
        ;
    }
    Ok(w)
}

// ------------------------------------------------------------------
// S format: stores.
// ------------------------------------------------------------------

/// Opcode and funct3 of every S-format mnemonic.
pub open spec fn spec_s_fields(s: Seq<char>) -> Option<(u32, u32)> {
    if s == "sb"@ {
        Some((0x23u32, 0u32))
    } else if s == "sh"@ {
        Some((0x23u32, 1u32))
    } else if s == "sw"@ {
        Some((0x23u32, 2u32))
    } else {
        None
    }
}

/// True when `s` names an S-format instruction.
pub open spec fn is_s_mnemonic(s: Seq<char>) -> bool {
    spec_s_fields(s) is Some
}

/// The S-format word: the 12-bit immediate field is split into its
/// upper seven and lower five bits around the register fields.
pub open spec fn spec_encode_s(mn: Seq<char>, rs1: u8, rs2: u8, imm: u16) -> int
    recommends
        is_s_mnemonic(mn),
        imm < 4096,
{
    let t = spec_s_fields(mn)->0;
    (imm / 32) * 0x2000000 + rs2 * 0x100000 + rs1 * 0x8000 + t.1 * 0x1000 + (imm % 32) * 0x80
        + t.0
}

/// Looks up the opcode/funct3 fields of an S-format mnemonic.
pub fn s_fields(instruction: &str) -> (r: Option<(u32, u32)>)
    ensures
        r == spec_s_fields(instruction@),
        r matches Some(t) ==> t.0 < 128 && t.1 < 8,
{
    if str_eq(instruction, "sb") {
        Some((0x23, 0))
    } else if str_eq(instruction, "sh") {
        Some((0x23, 1))
    } else if str_eq(instruction, "sw") {
        Some((0x23, 2))
    } else {
        None
    }
}

/// Encodes one S-format store from the base register `rs1`, the source
/// register `rs2` and the 12-bit offset field.
pub fn parse_s_type(instruction: &str, rs1: u8, rs2: u8, imm: u16) -> (r: u32)
    requires
        is_s_mnemonic(instruction@),
        rs1 < 32,
        rs2 < 32,
        imm < 4096,
    ensures
        r as int == spec_encode_s(instruction@, rs1, rs2, imm),
{
    let (op, f3) = match s_fields(instruction) {
        Some(t) => t,
        None => unreached(),
    };
    let immw = imm as u32;
    let rs1w = rs1 as u32;
    let rs2w = rs2 as u32;
    let w = ((immw >> 5) << 25) | (rs2w << 20) | (rs1w << 15) | (f3 << 12) | ((immw & 0x1f) << 7)
        | op;
    proof {
        assert(w as int == (immw / 32) * 0x2000000 + rs2w * 0x100000 + rs1w * 0x8000 + f3 * 0x1000
            + (immw % 32) * 0x80 + op) by (bit_vector)
            requires
                w == ((immw >> 5) << 25) | (rs2w << 20) | (rs1w << 15) | (f3 << 12) | ((immw
                    & 0x1f) << 7) | op,
                immw < 4096,
                rs2w < 32,
                rs1w < 32,
                f3 < 8,
                op < 128,
        ;
    }
    w
}

// ------------------------------------------------------------------
// B format: conditional branches.
// ------------------------------------------------------------------

/// Opcode and funct3 of every B-format mnemonic.
pub open spec fn spec_b_fields(s: Seq<char>) -> Option<(u32, u32)> {
    if s == "beq"@ {
        Some((0x63u32, 0u32))
    } else if s == "bne"@ {
        Some((0x63u32, 1u32))
    } else if s == "blt"@ {
        Some((0x63u32, 4u32))
    } else if s == "bge"@ {
        Some((0x63u32, 5u32))
    } else if s == "bltu"@ {
        Some((0x63u32, 6u32))
    } else if s == "bgeu"@ {
        Some((0x63u32, 7u32))
    } else {
        None
    }
}

/// True when `s` names a B-format instruction.
pub open spec fn is_b_mnemonic(s: Seq<char>) -> bool {
    spec_b_fields(s) is Some
}

/// The B-format word: the 13-bit offset field is scattered, with bit
/// 12 at word bit 31, bits 10:5 at 30:25, bits 4:1 at 11:8 and bit 11
/// at word bit 7.  Bit 0 of the offset is implicitly zero and never
/// stored.
pub open spec fn spec_encode_b(mn: Seq<char>, rs1: u8, rs2: u8, imm: u16) -> int
    recommends
        is_b_mnemonic(mn),
        imm < 8192,
{
    let t = spec_b_fields(mn)->0;
    ((imm / 4096) % 2) * 0x80000000 + ((imm / 32) % 64) * 0x2000000 + rs2 * 0x100000 + rs1
        * 0x8000 + t.1 * 0x1000 + ((imm / 2) % 16) * 0x100 + ((imm / 2048) % 2) * 0x80 + t.0
}

/// Looks up the opcode/funct3 fields of a B-format mnemonic.
pub fn b_fields(instruction: &str) -> (r: Option<(u32, u32)>)
    ensures
        r == spec_b_fields(instruction@),
        r matches Some(t) ==> t.0 < 128 && t.1 < 8,
{
    if str_eq(instruction, "beq") {
        Some((0x63, 0))
    } else if str_eq(instruction, "bne") {
        Some((0x63, 1))
    } else if str_eq(instruction, "blt") {
        Some((0x63, 4))
    } else if str_eq(instruction, "bge") {
        Some((0x63, 5))
    } else if str_eq(instruction, "bltu") {
        Some((0x63, 6))
    } else if str_eq(instruction, "bgeu") {
        Some((0x63, 7))
    } else {
        None
    }
}

/// Encodes one B-format branch from two register indices and the
/// 13-bit offset field.
pub fn parse_b_type(instruction: &str, rs1: u8, rs2: u8, imm: u16) -> (r: u32)
    requires
        is_b_mnemonic(instruction@),
        rs1 < 32,
        rs2 < 32,
        imm < 8192,
    ensures
        r as int == spec_encode_b(instruction@, rs1, rs2, imm),
{
    let (op, f3) = match b_fields(instruction) {
        Some(t) => t,
        None => unreached(),
    };
    let immw = imm as u32;
    let rs1w = rs1 as u32;
    let rs2w = rs2 as u32;
    let w = (((immw >> 12) & 1) << 31) | (((immw >> 5) & 0x3f) << 25) | (rs2w << 20) | (rs1w
        << 15) | (f3 << 12) | (((immw >> 1) & 0xf) << 8) | (((immw >> 11) & 1) << 7) | op;
    proof {
        assert(w as int == ((immw / 4096) % 2) * 0x80000000 + ((immw / 32) % 64) * 0x2000000 + rs2w
            * 0x100000 + rs1w * 0x8000 + f3 * 0x1000 + ((immw / 2) % 16) * 0x100 + ((immw / 2048)
            % 2) * 0x80 + op) by (bit_vector)
            requires
                w == (((immw >> 12) & 1) << 31) | (((immw >> 5) & 0x3f) << 25) | (rs2w << 20) | (
                rs1w << 15) | (f3 << 12) | (((immw >> 1) & 0xf) << 8) | (((immw >> 11) & 1) << 7)
                    | op,
                immw < 8192,
                rs2w < 32,
                rs1w < 32,
                f3 < 8,
                op < 128,
        ;
    }
    w
}

// ------------------------------------------------------------------
// U format: lui and auipc.
// ------------------------------------------------------------------

/// Opcode of every U-format mnemonic.
pub open spec fn spec_u_fields(s: Seq<char>) -> Option<u32> {
    if s == "lui"@ {
        Some(0x37u32)
    } else if s == "auipc"@ {
        Some(0x17u32)
    } else {
        None
    }
}

/// True when `s` names a U-format instruction.
pub open spec fn is_u_mnemonic(s: Seq<char>) -> bool {
    spec_u_fields(s) is Some
}

/// The U-format word: the 20-bit immediate left-shifted into bits
/// 31:12, then rd and the opcode.
pub open spec fn spec_encode_u(mn: Seq<char>, rd: u8, imm: u32) -> int
    recommends
        is_u_mnemonic(mn),
        imm < 0x100000,
{
    imm * 0x1000 + rd * 0x80 + spec_u_fields(mn)->0
}

/// Looks up the opcode of a U-format mnemonic.
pub fn u_fields(instruction: &str) -> (r: Option<u32>)
    ensures
        r == spec_u_fields(instruction@),
        r matches Some(op) ==> op < 128,
{
    if str_eq(instruction, "lui") {
        Some(0x37)
    } else if str_eq(instruction, "auipc") {
        Some(0x17)
    } else {
        None
    }
}

/// Encodes one U-format instruction from the destination register and
/// the unsigned 20-bit immediate.
pub fn parse_u_type(instruction: &str, rd: u8, imm: u32) -> (r: u32)
    requires
        is_u_mnemonic(instruction@),
        rd < 32,
        imm < 0x100000,
    ensures
        r as int == spec_encode_u(instruction@, rd, imm),
{
    let op = match u_fields(instruction) {
        Some(op) => op,
        None => unreached(),
    };
    let rdw = rd as u32;
    let w = (imm << 12) | (rdw << 7) | op;
    proof {
        assert(w as int == imm * 0x1000 + rdw * 0x80 + op) by (bit_vector)
            requires
                w == (imm << 12) | (rdw << 7) | op,
                imm < 0x100000,
                rdw < 32,
                op < 128,
        ;
    }
    w
}

// ------------------------------------------------------------------
// J format: jal.
// ------------------------------------------------------------------

/// True when `s` names the J-format instruction.
pub open spec fn is_j_mnemonic(s: Seq<char>) -> bool {
    s == "jal"@
}

/// The J-format word: the 21-bit offset field is scattered, with bit
/// 20 at word bit 31, bits 10:1 at 30:21, bit 11 at word bit 20 and
/// bits 19:12 at 19:12.  Bit 0 of the offset is implicitly zero and
/// never stored.
pub open spec fn spec_encode_j(rd: u8, imm: u32) -> int
    recommends
        imm < 0x200000,
{
    ((imm / 0x100000) % 2) * 0x80000000 + ((imm / 2) % 0x400) * 0x200000 + ((imm / 0x800) % 2)
        * 0x100000 + ((imm / 0x1000) % 0x100) * 0x1000 + rd * 0x80 + 0x6f
}

/// Encodes the jal instruction from the destination register and the
/// 21-bit offset field.
pub fn parse_j_type(rd: u8, imm: u32) -> (r: u32)
    requires
        rd < 32,
        imm < 0x200000,
    ensures
        r as int == spec_encode_j(rd, imm),
{
    let rdw = rd as u32;
    let w = ((imm & 0x100000) << 11) | ((imm & 0x7fe) << 20) | ((imm & 0x800) << 9) | (imm
        & 0xff000) | (rdw << 7) | 0x6f;
    proof {
        assert(w as int == ((imm / 0x100000) % 2) * 0x80000000 + ((imm / 2) % 0x400) * 0x200000 + (
        (imm / 0x800) % 2) * 0x100000 + ((imm / 0x1000) % 0x100) * 0x1000 + rdw * 0x80 + 0x6f)
            by (bit_vector)
            requires
                w == ((imm & 0x100000) << 11) | ((imm & 0x7fe) << 20) | ((imm & 0x800) << 9) | (imm
                    & 0xff000) | (rdw << 7) | 0x6f,
                imm < 0x200000,
                rdw < 32,
        ;
    }
    w
}

// ------------------------------------------------------------------
// Laws: encoding is deterministic.
// ------------------------------------------------------------------

/// Two R-format encoder calls on identical validated inputs yield an
/// identical word: the word is pinned to a pure function of the
/// inputs.
pub proof fn lemma_encode_r_deterministic(mn: Seq<char>, rd: u8, rs1: u8, rs2: u8, w1: u32, w2: u32)
    requires
        w1 as int == spec_encode_r(mn, rd, rs1, rs2),
        w2 as int == spec_encode_r(mn, rd, rs1, rs2),
    ensures
        w1 == w2,
{
}

/// Two I-format encoder calls on identical validated inputs yield an
/// identical outcome, word or error alike.
pub proof fn lemma_encode_i_deterministic(
    mn: Seq<char>,
    rd: u8,
    rs1: u8,
    imm: u16,
    r1: Result<u32, AsmErrorKind>,
    r2: Result<u32, AsmErrorKind>,
)
    requires
        (match r1 {
            Ok(w) => spec_encode_i(mn, rd, rs1, imm) == Ok::<int, AsmErrorKind>(w as int),
            Err(k) => spec_encode_i(mn, rd, rs1, imm) == Err::<int, AsmErrorKind>(k),
        }),
        (match r2 {
            Ok(w) => spec_encode_i(mn, rd, rs1, imm) == Ok::<int, AsmErrorKind>(w as int),
            Err(k) => spec_encode_i(mn, rd, rs1, imm) == Err::<int, AsmErrorKind>(k),
        }),
    ensures
        r1 == r2,
{
}

/// Two S-format encoder calls on identical validated inputs yield an
/// identical word.
pub proof fn lemma_encode_s_deterministic(mn: Seq<char>, rs1: u8, rs2: u8, imm: u16, w1: u32, w2: u32)
    requires
        w1 as int == spec_encode_s(mn, rs1, rs2, imm),
        w2 as int == spec_encode_s(mn, rs1, rs2, imm),
    ensures
        w1 == w2,
{
}

/// Two B-format encoder calls on identical validated inputs yield an
/// identical word.
pub proof fn lemma_encode_b_deterministic(mn: Seq<char>, rs1: u8, rs2: u8, imm: u16, w1: u32, w2: u32)
    requires
        w1 as int == spec_encode_b(mn, rs1, rs2, imm),
        w2 as int == spec_encode_b(mn, rs1, rs2, imm),
    ensures
        w1 == w2,
{
}

/// Two U-format encoder calls on identical validated inputs yield an
/// identical word.
pub proof fn lemma_encode_u_deterministic(mn: Seq<char>, rd: u8, imm: u32, w1: u32, w2: u32)
    requires
        w1 as int == spec_encode_u(mn, rd, imm),
        w2 as int == spec_encode_u(mn, rd, imm),
    ensures
        w1 == w2,
{
}

/// Two J-format encoder calls on identical validated inputs yield an
/// identical word.
pub proof fn lemma_encode_j_deterministic(rd: u8, imm: u32, w1: u32, w2: u32)
    requires
        w1 as int == spec_encode_j(rd, imm),
        w2 as int == spec_encode_j(rd, imm),
    ensures
        w1 == w2,
{
}

} // verus!
