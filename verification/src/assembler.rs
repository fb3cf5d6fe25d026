//! The assembly driver: a deterministic, sequential pass over
//! pre-tokenized source lines.
//!
//! The driver runs two passes.  The first walks the lines in order,
//! validates every label definition, rejects duplicates, and assigns
//! each label the address of the next instruction (the location
//! counter starts at 0 and advances by exactly 4 for every line that
//! holds an instruction; label-only lines and directives do not
//! advance it).  The second pass walks the same lines with the
//! complete table, resolves operands, dispatches every mnemonic to its
//! format encoder and appends one 32-bit word per instruction, in
//! program order.  Because the table is complete before any encoding,
//! a label referenced before its definition resolves exactly like a
//! backward reference.
//!
//! The first error aborts the run: no partial output is returned.

use vstd::prelude::*;

use crate::encoder::{
    b_fields, i_fields, is_b_mnemonic, is_env_mnemonic, is_i_mnemonic, is_j_mnemonic,
    is_load_mnemonic, is_r_mnemonic, is_s_mnemonic, is_u_mnemonic, parse_b_type, parse_i_type,
    parse_j_type, parse_r_type, parse_s_type, parse_u_type, r_fields, s_fields, spec_encode_b,
    spec_encode_i, spec_encode_j, spec_encode_r, spec_encode_s, spec_encode_u, u_fields,
};
use crate::errors::{asm_error, AsmError, AsmErrorKind, AsmErrorView};
use crate::immediate::{
    branch_offset_field, err_view, jump_offset_field, parse_12_bit_immediate,
    parse_13_bit_immediate, parse_20_bit_immediate, parse_21_bit_immediate,
    spec_branch_offset_field, spec_jump_offset_field, spec_parse_imm_12, spec_parse_imm_13,
    spec_parse_imm_20, spec_parse_imm_21,
};
use crate::register::{parse_register, spec_register};
use crate::symbols::SymbolTable;
use crate::text::{is_label_char, is_label_continuation, is_label_start, is_label_start_char, str_eq};

verus! {

// ------------------------------------------------------------------
// Input lines.
// ------------------------------------------------------------------

/// An instruction as tokenized by the caller: the mnemonic and its
/// operand tokens, in written order.
pub struct Instruction {
    pub mnemonic: String,
    pub operands: Vec<String>,
}

/// What one source line holds after tokenization.
pub enum LineKind {
    /// A recognized directive; the core ignores it.
    Directive,
    /// A statement: an optional label definition and an optional
    /// instruction (a line may hold either or both).
    Statement { label: Option<String>, instruction: Option<Instruction> },
}

/// One pre-tokenized source line, tagged with its 1-based line number
/// for diagnostics.
pub struct SourceLine {
    pub line: usize,
    pub kind: LineKind,
}

/// The mathematical image of an `Instruction`.
pub struct InstructionView {
    pub mnemonic: Seq<char>,
    pub operands: Seq<Seq<char>>,
}

/// The mathematical image of a `LineKind`.
pub enum LineKindView {
    Directive,
    Statement { label: Option<Seq<char>>, instruction: Option<InstructionView> },
}

/// The mathematical image of a `SourceLine`.
pub struct SourceLineView {
    pub line: nat,
    pub kind: LineKindView,
}

impl DeepView for Instruction {
    type V = InstructionView;

    open spec fn deep_view(&self) -> InstructionView {
        InstructionView { mnemonic: self.mnemonic@, operands: self.operands.deep_view() }
    }
}

impl DeepView for LineKind {
    type V = LineKindView;

    open spec fn deep_view(&self) -> LineKindView {
        match self {
            LineKind::Directive => LineKindView::Directive,
            LineKind::Statement { label, instruction } => LineKindView::Statement {
                label: label.deep_view(),
                instruction: instruction.deep_view(),
            },
        }
    }
}

impl DeepView for SourceLine {
    type V = SourceLineView;

    open spec fn deep_view(&self) -> SourceLineView {
        SourceLineView { line: self.line as nat, kind: self.kind.deep_view() }
    }
}

// ------------------------------------------------------------------
// Label names.
// ------------------------------------------------------------------

/// A valid label: non-empty, starting with a letter or underscore
/// (never a digit), continuing with letters, digits or underscores.
pub open spec fn valid_label(s: Seq<char>) -> bool {
    s.len() > 0 && is_label_start_char(s[0]) && forall|j: int|
        1 <= j < s.len() ==> is_label_char(s[j])
}

/// Decides `valid_label`.
pub fn validate_label(name: &str) -> (r: bool)
    ensures
        r == valid_label(name@),
{
    let n = name.unicode_len();
    if n == 0 {
        return false;
    }
    if !is_label_start(name.get_char(0)) {
        return false;
    }
    let mut i: usize = 1;
    while i < n
        invariant
            1 <= i <= n,
            n == name@.len(),
            is_label_start_char(name@[0]),
            forall|j: int| 1 <= j < i ==> is_label_char(name@[j]),
        decreases n - i,
    {
        if !is_label_continuation(name.get_char(i)) {
            return false;
        }
        i = i + 1;
    }
    true
}

// ------------------------------------------------------------------
// The specification of the two passes.
// ------------------------------------------------------------------

/// First pass from line `i`, with `addr` the address of the next
/// instruction and `m` the labels defined so far: validates and
/// collects every label definition, advancing the address by 4 per
/// instruction line.
pub open spec fn spec_collect_labels(
    ls: Seq<SourceLineView>,
    i: int,
    addr: int,
    m: Map<Seq<char>, int>,
) -> Result<Map<Seq<char>, int>, AsmErrorView>
    decreases ls.len() - i,
{
    if i < 0 || i >= ls.len() {
        Ok(m)
    } else {
        match ls[i].kind {
            LineKindView::Directive => spec_collect_labels(ls, i + 1, addr, m),
            LineKindView::Statement { label, instruction } => {
                let next_addr = if instruction is Some {
                    addr + 4
                } else {
                    addr
                };
                match label {
                    Some(name) => if !valid_label(name) {
                        Err(err_view(AsmErrorKind::InvalidLabelName, ls[i].line, name))
                    } else if m.contains_key(name) {
                        Err(err_view(AsmErrorKind::DuplicateLabel, ls[i].line, name))
                    } else {
                        spec_collect_labels(ls, i + 1, next_addr, m.insert(name, addr))
                    },
                    None => spec_collect_labels(ls, i + 1, next_addr, m),
                }
            },
        }
    }
}

/// A register operand, or the diagnostic blaming its token.
pub open spec fn spec_reg_or_err(tok: Seq<char>, line: nat) -> Result<u8, AsmErrorView> {
    match spec_register(tok) {
        Some(i) => Ok(i),
        None => Err(err_view(AsmErrorKind::InvalidRegisterName, line, tok)),
    }
}

/// One R-format statement: three register operands, then the encoder.
pub open spec fn spec_encode_r_statement(inst: InstructionView, line: nat) -> Result<
    u32,
    AsmErrorView,
> {
    if inst.operands.len() != 3 {
        Err(err_view(AsmErrorKind::WrongOperandCount, line, inst.mnemonic))
    } else {
        match spec_reg_or_err(inst.operands[0], line) {
            Err(e) => Err(e),
            Ok(rd) => match spec_reg_or_err(inst.operands[1], line) {
                Err(e) => Err(e),
                Ok(rs1) => match spec_reg_or_err(inst.operands[2], line) {
                    Err(e) => Err(e),
                    Ok(rs2) => Ok(spec_encode_r(inst.mnemonic, rd, rs1, rs2) as u32),
                },
            },
        }
    }
}

/// One environment statement (`ecall` or `ebreak`): no operands; the
/// immediate distinguishes the two.
pub open spec fn spec_encode_env_statement(inst: InstructionView, line: nat) -> Result<
    u32,
    AsmErrorView,
> {
    if inst.operands.len() != 0 {
        Err(err_view(AsmErrorKind::WrongOperandCount, line, inst.mnemonic))
    } else {
        let imm: u16 = if inst.mnemonic == "ebreak"@ {
            1
        } else {
            0
        };
        Ok(spec_encode_i(inst.mnemonic, 0, 0, imm)->Ok_0 as u32)
    }
}

/// One I-format statement.  Loads are written `rd, offset(rs1)`, so
/// their base register is the third token; the arithmetic forms and
/// `jalr` are written `rd, rs1, imm`.
pub open spec fn spec_encode_i_statement(inst: InstructionView, line: nat) -> Result<
    u32,
    AsmErrorView,
> {
    if inst.operands.len() != 3 {
        Err(err_view(AsmErrorKind::WrongOperandCount, line, inst.mnemonic))
    } else {
        let rs1_tok = if is_load_mnemonic(inst.mnemonic) {
            inst.operands[2]
        } else {
            inst.operands[1]
        };
        let imm_tok = if is_load_mnemonic(inst.mnemonic) {
            inst.operands[1]
        } else {
            inst.operands[2]
        };
        match spec_reg_or_err(inst.operands[0], line) {
            Err(e) => Err(e),
            Ok(rd) => match spec_reg_or_err(rs1_tok, line) {
                Err(e) => Err(e),
                Ok(rs1) => match spec_parse_imm_12(imm_tok) {
                    Err(k) => Err(err_view(k, line, imm_tok)),
                    Ok(f) => match spec_encode_i(inst.mnemonic, rd, rs1, f) {
                        Err(k) => Err(err_view(k, line, imm_tok)),
                        Ok(w) => Ok(w as u32),
                    },
                },
            },
        }
    }
}

/// One S-format statement, written `rs2, offset(rs1)`.
pub open spec fn spec_encode_s_statement(inst: InstructionView, line: nat) -> Result<
    u32,
    AsmErrorView,
> {
    if inst.operands.len() != 3 {
        Err(err_view(AsmErrorKind::WrongOperandCount, line, inst.mnemonic))
    } else {
        match spec_reg_or_err(inst.operands[2], line) {
            Err(e) => Err(e),
            Ok(rs1) => match spec_reg_or_err(inst.operands[0], line) {
                Err(e) => Err(e),
                Ok(rs2) => match spec_parse_imm_12(inst.operands[1]) {
                    Err(k) => Err(err_view(k, line, inst.operands[1])),
                    Ok(f) => Ok(spec_encode_s(inst.mnemonic, rs1, rs2, f) as u32),
                },
            },
        }
    }
}

/// One B-format statement: two registers and a target, which is either
/// a defined label (the offset is target address minus this
/// instruction's address) or a written offset literal.
pub open spec fn spec_encode_b_statement(
    inst: InstructionView,
    line: nat,
    addr: int,
    labels: Map<Seq<char>, int>,
) -> Result<u32, AsmErrorView> {
    if inst.operands.len() != 3 {
        Err(err_view(AsmErrorKind::WrongOperandCount, line, inst.mnemonic))
    } else {
        match spec_reg_or_err(inst.operands[0], line) {
            Err(e) => Err(e),
            Ok(rs1) => match spec_reg_or_err(inst.operands[1], line) {
                Err(e) => Err(e),
                Ok(rs2) => {
                    let target = inst.operands[2];
                    let field = if labels.contains_key(target) {
                        spec_branch_offset_field(labels[target] - addr)
                    } else {
                        spec_parse_imm_13(target)
                    };
                    match field {
                        Err(k) => Err(err_view(k, line, target)),
                        Ok(f) => Ok(spec_encode_b(inst.mnemonic, rs1, rs2, f) as u32),
                    }
                },
            },
        }
    }
}

/// One U-format statement: a destination register and an unsigned
/// 20-bit immediate.
pub open spec fn spec_encode_u_statement(inst: InstructionView, line: nat) -> Result<
    u32,
    AsmErrorView,
> {
    if inst.operands.len() != 2 {
        Err(err_view(AsmErrorKind::WrongOperandCount, line, inst.mnemonic))
    } else {
        match spec_reg_or_err(inst.operands[0], line) {
            Err(e) => Err(e),
            Ok(rd) => match spec_parse_imm_20(inst.operands[1]) {
                Err(k) => Err(err_view(k, line, inst.operands[1])),
                Ok(f) => Ok(spec_encode_u(inst.mnemonic, rd, f) as u32),
            },
        }
    }
}

/// One J-format statement: a destination register and a target, label
/// or literal, as for branches.
pub open spec fn spec_encode_j_statement(
    inst: InstructionView,
    line: nat,
    addr: int,
    labels: Map<Seq<char>, int>,
) -> Result<u32, AsmErrorView> {
    if inst.operands.len() != 2 {
        Err(err_view(AsmErrorKind::WrongOperandCount, line, inst.mnemonic))
    } else {
        match spec_reg_or_err(inst.operands[0], line) {
            Err(e) => Err(e),
            Ok(rd) => {
                let target = inst.operands[1];
                let field = if labels.contains_key(target) {
                    spec_jump_offset_field(labels[target] - addr)
                } else {
                    spec_parse_imm_21(target)
                };
                match field {
                    Err(k) => Err(err_view(k, line, target)),
                    Ok(f) => Ok(spec_encode_j(rd, f) as u32),
                }
            },
        }
    }
}

/// Dispatch of one instruction to its format family; a mnemonic in no
/// family is `UnknownInstruction`.
pub open spec fn spec_encode_statement(
    inst: InstructionView,
    line: nat,
    addr: int,
    labels: Map<Seq<char>, int>,
) -> Result<u32, AsmErrorView> {
    if is_r_mnemonic(inst.mnemonic) {
        spec_encode_r_statement(inst, line)
    } else if is_env_mnemonic(inst.mnemonic) {
        spec_encode_env_statement(inst, line)
    } else if is_i_mnemonic(inst.mnemonic) {
        spec_encode_i_statement(inst, line)
    } else if is_s_mnemonic(inst.mnemonic) {
        spec_encode_s_statement(inst, line)
    } else if is_b_mnemonic(inst.mnemonic) {
        spec_encode_b_statement(inst, line, addr, labels)
    } else if is_u_mnemonic(inst.mnemonic) {
        spec_encode_u_statement(inst, line)
    } else if is_j_mnemonic(inst.mnemonic) {
        spec_encode_j_statement(inst, line, addr, labels)
    } else {
        Err(err_view(AsmErrorKind::UnknownInstruction, line, inst.mnemonic))
    }
}

/// Second pass from line `i`: encodes every instruction line against
/// the complete label map, appending one word each and advancing the
/// address by 4.
pub open spec fn spec_encode_lines(
    ls: Seq<SourceLineView>,
    i: int,
    addr: int,
    labels: Map<Seq<char>, int>,
    acc: Seq<u32>,
) -> Result<Seq<u32>, AsmErrorView>
    decreases ls.len() - i,
{
    if i < 0 || i >= ls.len() {
        Ok(acc)
    } else {
        match ls[i].kind {
            LineKindView::Directive => spec_encode_lines(ls, i + 1, addr, labels, acc),
            LineKindView::Statement { label: _, instruction } => match instruction {
                None => spec_encode_lines(ls, i + 1, addr, labels, acc),
                Some(inst) => match spec_encode_statement(inst, ls[i].line, addr, labels) {
                    Err(e) => Err(e),
                    Ok(w) => spec_encode_lines(ls, i + 1, addr + 4, labels, acc.push(w)),
                },
            },
        }
    }
}

/// The whole assembly: the first pass builds the label map, the second
/// encodes against it.  The result is either the full word sequence,
/// one word per instruction line in program order, or the first error.
pub open spec fn spec_assemble(ls: Seq<SourceLineView>) -> Result<Seq<u32>, AsmErrorView> {
    match spec_collect_labels(ls, 0, 0, Map::empty()) {
        Err(e) => Err(e),
        Ok(m) => spec_encode_lines(ls, 0, 0, m, Seq::empty()),
    }
}

/// How an executable outcome realizes a specified one.
pub open spec fn word_result_matches(r: Result<u32, AsmError>, s: Result<u32, AsmErrorView>) -> bool {
    match r {
        Ok(w) => s == Ok::<u32, AsmErrorView>(w),
        Err(e) => s == Err::<u32, AsmErrorView>(e@),
    }
}

// ------------------------------------------------------------------
// The executable driver.
// ------------------------------------------------------------------

/// Decides load-ness of a mnemonic, for the operand order.
fn is_load(mnemonic: &str) -> (r: bool)
    ensures
        r == is_load_mnemonic(mnemonic@),
{
    str_eq(mnemonic, "lb") || str_eq(mnemonic, "lh") || str_eq(mnemonic, "lw") || str_eq(
        mnemonic,
        "lbu",
    ) || str_eq(mnemonic, "lhu")
}

/// Encodes one R-format statement.
fn encode_r_statement(inst: &Instruction, line: usize) -> (r: Result<u32, AsmError>)
    requires
        is_r_mnemonic(inst.mnemonic@),
    ensures
        word_result_matches(r, spec_encode_r_statement(inst.deep_view(), line as nat)),
{
    if inst.operands.len() != 3 {
        return Err(asm_error(AsmErrorKind::WrongOperandCount, line, inst.mnemonic.as_str()));
    }
    let rd = match parse_register(inst.operands[0].as_str(), line) {
        Ok(i) => i,
        Err(e) => return Err(e),
    };
    let rs1 = match parse_register(inst.operands[1].as_str(), line) {
        Ok(i) => i,
        Err(e) => return Err(e),
    };
    let rs2 = match parse_register(inst.operands[2].as_str(), line) {
        Ok(i) => i,
        Err(e) => return Err(e),
    };
    Ok(parse_r_type(inst.mnemonic.as_str(), rd, rs1, rs2))
}

/// Encodes one environment statement.
fn encode_env_statement(inst: &Instruction, line: usize) -> (r: Result<u32, AsmError>)
    requires
        is_env_mnemonic(inst.mnemonic@),
    ensures
        word_result_matches(r, spec_encode_env_statement(inst.deep_view(), line as nat)),
{
    if inst.operands.len() != 0 {
        return Err(asm_error(AsmErrorKind::WrongOperandCount, line, inst.mnemonic.as_str()));
    }
    let imm: u16 = if str_eq(inst.mnemonic.as_str(), "ebreak") {
        1
    } else {
        0
    };
    match parse_i_type(inst.mnemonic.as_str(), 0, 0, imm) {
        Ok(w) => Ok(w),
        Err(_) => unreached(),
    }
}

/// Encodes one I-format statement.
fn encode_i_statement(inst: &Instruction, line: usize) -> (r: Result<u32, AsmError>)
    requires
        is_i_mnemonic(inst.mnemonic@),
    ensures
        word_result_matches(r, spec_encode_i_statement(inst.deep_view(), line as nat)),
{
    if inst.operands.len() != 3 {
        return Err(asm_error(AsmErrorKind::WrongOperandCount, line, inst.mnemonic.as_str()));
    }
    let load = is_load(inst.mnemonic.as_str());
    let rs1_index: usize = if load {
        2
    } else {
        1
    };
    let imm_index: usize = if load {
        1
    } else {
        2
    };
    let rd = match parse_register(inst.operands[0].as_str(), line) {
        Ok(i) => i,
        Err(e) => return Err(e),
    };
    let rs1 = match parse_register(inst.operands[rs1_index].as_str(), line) {
        Ok(i) => i,
        Err(e) => return Err(e),
    };
    let f = match parse_12_bit_immediate(inst.operands[imm_index].as_str(), line) {
        Ok(f) => f,
        Err(e) => return Err(e),
    };
    match parse_i_type(inst.mnemonic.as_str(), rd, rs1, f) {
        Ok(w) => Ok(w),
        Err(k) => Err(asm_error(k, line, inst.operands[imm_index].as_str())),
    }
}

/// Encodes one S-format statement.
fn encode_s_statement(inst: &Instruction, line: usize) -> (r: Result<u32, AsmError>)
    requires
        is_s_mnemonic(inst.mnemonic@),
    ensures
        word_result_matches(r, spec_encode_s_statement(inst.deep_view(), line as nat)),
{
    if inst.operands.len() != 3 {
        return Err(asm_error(AsmErrorKind::WrongOperandCount, line, inst.mnemonic.as_str()));
    }
    let rs1 = match parse_register(inst.operands[2].as_str(), line) {
        Ok(i) => i,
        Err(e) => return Err(e),
    };
    let rs2 = match parse_register(inst.operands[0].as_str(), line) {
        Ok(i) => i,
        Err(e) => return Err(e),
    };
    let f = match parse_12_bit_immediate(inst.operands[1].as_str(), line) {
        Ok(f) => f,
        Err(e) => return Err(e),
    };
    Ok(parse_s_type(inst.mnemonic.as_str(), rs1, rs2, f))
}

/// Encodes one B-format statement against the label map.
fn encode_b_statement(inst: &Instruction, line: usize, addr: u32, labels: &SymbolTable) -> (r:
    Result<u32, AsmError>)
    requires
        is_b_mnemonic(inst.mnemonic@),
        labels.wf(),
    ensures
        word_result_matches(
            r,
            spec_encode_b_statement(inst.deep_view(), line as nat, addr as int, labels@),
        ),
{
    if inst.operands.len() != 3 {
        return Err(asm_error(AsmErrorKind::WrongOperandCount, line, inst.mnemonic.as_str()));
    }
    let rs1 = match parse_register(inst.operands[0].as_str(), line) {
        Ok(i) => i,
        Err(e) => return Err(e),
    };
    let rs2 = match parse_register(inst.operands[1].as_str(), line) {
        Ok(i) => i,
        Err(e) => return Err(e),
    };
    let target = inst.operands[2].as_str();
    let f = match labels.lookup(target) {
        Some(a) => match branch_offset_field(a as i64 - addr as i64) {
            Ok(f) => f,
            Err(k) => return Err(asm_error(k, line, target)),
        },
        None => match parse_13_bit_immediate(target, line) {
            Ok(f) => f,
            Err(e) => return Err(e),
        },
    };
    Ok(parse_b_type(inst.mnemonic.as_str(), rs1, rs2, f))
}

/// Encodes one U-format statement.
fn encode_u_statement(inst: &Instruction, line: usize) -> (r: Result<u32, AsmError>)
    requires
        is_u_mnemonic(inst.mnemonic@),
    ensures
        word_result_matches(r, spec_encode_u_statement(inst.deep_view(), line as nat)),
{
    if inst.operands.len() != 2 {
        return Err(asm_error(AsmErrorKind::WrongOperandCount, line, inst.mnemonic.as_str()));
    }
    let rd = match parse_register(inst.operands[0].as_str(), line) {
        Ok(i) => i,
        Err(e) => return Err(e),
    };
    let f = match parse_20_bit_immediate(inst.operands[1].as_str(), line) {
        Ok(f) => f,
        Err(e) => return Err(e),
    };
    Ok(parse_u_type(inst.mnemonic.as_str(), rd, f))
}

/// Encodes one J-format statement against the label map.
fn encode_j_statement(inst: &Instruction, line: usize, addr: u32, labels: &SymbolTable) -> (r:
    Result<u32, AsmError>)
    requires
        is_j_mnemonic(inst.mnemonic@),
        labels.wf(),
    ensures
        word_result_matches(
            r,
            spec_encode_j_statement(inst.deep_view(), line as nat, addr as int, labels@),
        ),
{
    if inst.operands.len() != 2 {
        return Err(asm_error(AsmErrorKind::WrongOperandCount, line, inst.mnemonic.as_str()));
    }
    let rd = match parse_register(inst.operands[0].as_str(), line) {
        Ok(i) => i,
        Err(e) => return Err(e),
    };
    let target = inst.operands[1].as_str();
    let f = match labels.lookup(target) {
        Some(a) => match jump_offset_field(a as i64 - addr as i64) {
            Ok(f) => f,
            Err(k) => return Err(asm_error(k, line, target)),
        },
        None => match parse_21_bit_immediate(target, line) {
            Ok(f) => f,
            Err(e) => return Err(e),
        },
    };
    Ok(parse_j_type(rd, f))
}

/// Encodes one instruction: dispatches the mnemonic to its format
/// family, or reports `UnknownInstruction`.
fn encode_statement(inst: &Instruction, line: usize, addr: u32, labels: &SymbolTable) -> (r: Result<
    u32,
    AsmError,
>)
    requires
        labels.wf(),
    ensures
        word_result_matches(
            r,
            spec_encode_statement(inst.deep_view(), line as nat, addr as int, labels@),
        ),
{
    let mn = inst.mnemonic.as_str();
    if r_fields(mn).is_some() {
        encode_r_statement(inst, line)
    } else if str_eq(mn, "ecall") || str_eq(mn, "ebreak") {
        encode_env_statement(inst, line)
    } else if i_fields(mn).is_some() {
        encode_i_statement(inst, line)
    } else if s_fields(mn).is_some() {
        encode_s_statement(inst, line)
    } else if b_fields(mn).is_some() {
        encode_b_statement(inst, line, addr, labels)
    } else if u_fields(mn).is_some() {
        encode_u_statement(inst, line)
    } else if str_eq(mn, "jal") {
        encode_j_statement(inst, line, addr, labels)
    } else {
        Err(asm_error(AsmErrorKind::UnknownInstruction, line, mn))
    }
}

/// Assembles a tokenized program into its machine-code words, one per
/// instruction line, in program order, or stops at the first error.
/// The length bound keeps every assigned address inside a 32-bit
/// address space.
pub fn assemble(lines: &Vec<SourceLine>) -> (r: Result<Vec<u32>, AsmError>)
    requires
        lines@.len() <= 0x3fffffff,
    ensures
        (match r {
            Ok(words) => spec_assemble(lines.deep_view()) == Ok::<Seq<u32>, AsmErrorView>(words@),
            Err(e) => spec_assemble(lines.deep_view()) == Err::<Seq<u32>, AsmErrorView>(e@),
        }),
{
    let ghost lv = lines.deep_view();
    let n = lines.len();

    // Pass 1: collect the labels.
    let mut labels = SymbolTable::new();
    let mut addr: u32 = 0;
    let mut i: usize = 0;
    while i < n
        invariant
            lv == lines.deep_view(),
            n == lines@.len(),
            n <= 0x3fffffff,
            i <= n,
            labels.wf(),
            addr <= 4 * i,
            spec_collect_labels(lv, 0, 0, Map::empty()) == spec_collect_labels(
                lv,
                i as int,
                addr as int,
                labels@,
            ),
        decreases n - i,
    {
        match &lines[i].kind {
            LineKind::Directive => {},
            LineKind::Statement { label, instruction } => {
                match label {
                    Some(name) => {
                        if !validate_label(name.as_str()) {
                            return Err(
                                asm_error(
                                    AsmErrorKind::InvalidLabelName,
                                    lines[i].line,
                                    name.as_str(),
                                ),
                            );
                        }
                        match labels.lookup(name.as_str()) {
                            Some(_) => {
                                return Err(
                                    asm_error(
                                        AsmErrorKind::DuplicateLabel,
                                        lines[i].line,
                                        name.as_str(),
                                    ),
                                );
                            },
                            None => {},
                        }
                        labels.insert(name.clone(), addr);
                    },
                    None => {},
                }
                if instruction.is_some() {
                    addr = addr + 4;
                }
            },
        }
        i = i + 1;
    }

    // Pass 2: encode against the complete table.
    let mut words: Vec<u32> = Vec::new();
    let mut addr2: u32 = 0;
    let mut j: usize = 0;
    while j < n
        invariant
            lv == lines.deep_view(),
            n == lines@.len(),
            n <= 0x3fffffff,
            j <= n,
            labels.wf(),
            addr2 <= 4 * j,
            spec_assemble(lv) == spec_encode_lines(lv, j as int, addr2 as int, labels@, words@),
        decreases n - j,
    {
        match &lines[j].kind {
            LineKind::Directive => {},
            LineKind::Statement { label: _, instruction } => {
                match instruction {
                    Some(inst) => {
                        let w = match encode_statement(inst, lines[j].line, addr2, &labels) {
                            Ok(w) => w,
                            Err(e) => return Err(e),
                        };
                        words.push(w);
                        addr2 = addr2 + 4;
                    },
                    None => {},
                }
            },
        }
        j = j + 1;
    }
    Ok(words)
}

// ------------------------------------------------------------------
// Laws of the two-pass design.
// ------------------------------------------------------------------

/// A label in the map when the first pass starts is still there when
/// it ends.
proof fn lemma_collect_labels_monotone(
    ls: Seq<SourceLineView>,
    i: int,
    addr: int,
    m: Map<Seq<char>, int>,
    k: Seq<char>,
)
    requires
        spec_collect_labels(ls, i, addr, m) is Ok,
        m.contains_key(k),
    ensures
        spec_collect_labels(ls, i, addr, m)->Ok_0.contains_key(k),
    decreases ls.len() - i,
{
    if 0 <= i < ls.len() {
        match ls[i].kind {
            LineKindView::Directive => {
                lemma_collect_labels_monotone(ls, i + 1, addr, m, k);
            },
            LineKindView::Statement { label, instruction } => {
                let next_addr = if instruction is Some {
                    addr + 4
                } else {
                    addr
                };
                match label {
                    Some(name) => {
                        lemma_collect_labels_monotone(ls, i + 1, next_addr, m.insert(name, addr), k);
                    },
                    None => {
                        lemma_collect_labels_monotone(ls, i + 1, next_addr, m, k);
                    },
                }
            },
        }
    }
}

/// Forward references resolve: when the first pass succeeds, every
/// label defined anywhere in the program is in the map the encoding
/// pass reads, wherever the reference stands relative to the
/// definition.
pub proof fn lemma_every_defined_label_resolves(ls: Seq<SourceLineView>, d: int)
    requires
        spec_collect_labels(ls, 0, 0, Map::empty()) is Ok,
        0 <= d < ls.len(),
        ls[d].kind matches LineKindView::Statement { label: Some(_), .. },
    ensures
        (ls[d].kind matches LineKindView::Statement { label: Some(name), .. } ==>
            spec_collect_labels(ls, 0, 0, Map::empty())->Ok_0.contains_key(name)),
{
    lemma_defined_label_in_map(ls, 0, 0, Map::empty(), d);
}

/// Generalization over the pass state: a label defined at or after
/// line `i` ends up in the final map.
proof fn lemma_defined_label_in_map(
    ls: Seq<SourceLineView>,
    i: int,
    addr: int,
    m: Map<Seq<char>, int>,
    d: int,
)
    requires
        spec_collect_labels(ls, i, addr, m) is Ok,
        0 <= i <= d < ls.len(),
        ls[d].kind matches LineKindView::Statement { label: Some(_), .. },
    ensures
        (ls[d].kind matches LineKindView::Statement { label: Some(name), .. } ==>
            spec_collect_labels(ls, i, addr, m)->Ok_0.contains_key(name)),
    decreases ls.len() - i,
{
    if 0 <= i < ls.len() {
        match ls[i].kind {
            LineKindView::Directive => {
                if d > i {
                    lemma_defined_label_in_map(ls, i + 1, addr, m, d);
                }
            },
            LineKindView::Statement { label, instruction } => {
                let next_addr = if instruction is Some {
                    addr + 4
                } else {
                    addr
                };
                match label {
                    Some(name) => {
                        let m2 = m.insert(name, addr);
                        if d == i {
                            lemma_collect_labels_monotone(ls, i + 1, next_addr, m2, name);
                        } else {
                            lemma_defined_label_in_map(ls, i + 1, next_addr, m2, d);
                        }
                    },
                    None => {
                        if d > i {
                            lemma_defined_label_in_map(ls, i + 1, next_addr, m, d);
                        }
                    },
                }
            },
        }
    }
}

} // verus!
