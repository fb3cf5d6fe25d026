//! Structured diagnostics.
//!
//! Every failure the assembler can report is classified by a kind, and a
//! full diagnostic carries the kind together with the 1-based source line
//! and the offending token.  Errors are values handed back to the caller;
//! nothing in the core prints or retries.

use vstd::prelude::*;

verus! {

/// Classification of every failure the assembler detects.
#[derive(Clone, Copy, Debug, PartialEq, Eq, Structural)]
pub enum AsmErrorKind {
    /// A register operand is neither `x0`..`x31` nor an ABI alias.
    InvalidRegisterName,
    /// An immediate operand does not parse as an integer in its base.
    InvalidLiteral,
    /// An immediate value does not fit the field width of its format.
    ImmediateOutOfRange,
    /// A branch or jump offset is odd.
    AlignmentFailure,
    /// An instruction has the wrong number of operands for its format.
    WrongOperandCount,
    /// A mnemonic is not one the assembler knows.
    UnknownInstruction,
    /// A label is defined a second time.
    DuplicateLabel,
    /// A label name is empty, starts with a digit, or holds a character
    /// other than an ASCII letter, digit or underscore.
    InvalidLabelName,
    /// A shift-immediate instruction names a shift amount above 31.
    ShiftAmountOutOfRange,
}

/// A diagnostic as surfaced to the caller: what went wrong, on which
/// source line, and which token caused it.
#[derive(Debug, PartialEq, Eq)]
pub struct AsmError {
    pub kind: AsmErrorKind,
    pub line: usize,
    pub token: String,
}

/// The mathematical image of an `AsmError`.
pub struct AsmErrorView {
    pub kind: AsmErrorKind,
    pub line: nat,
    pub token: Seq<char>,
}

impl View for AsmError {
    type V = AsmErrorView;

    open spec fn view(&self) -> AsmErrorView {
        AsmErrorView { kind: self.kind, line: self.line as nat, token: self.token@ }
    }
}

impl DeepView for AsmError {
    type V = AsmErrorView;

    open spec fn deep_view(&self) -> AsmErrorView {
        self.view()
    }
}

/// Builds the diagnostic for `kind` at `line`, blaming `token`.
pub fn asm_error(kind: AsmErrorKind, line: usize, token: &str) -> (e: AsmError)
    ensures
        e@ == (AsmErrorView { kind, line: line as nat, token: token@ }),
{
    AsmError { kind, line, token: token.to_owned() }
}

} // verus!
