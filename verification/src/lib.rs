//! A verified assembler core for the RV32I base integer instruction set,
//! together with the RV32M multiply/divide and RV32A atomic extensions.
//!
//! The crate turns pre-tokenized assembly statements into 32-bit machine
//! words, one per instruction, in program order.  It covers the encoding
//! pipeline that has to be bit-exact: immediate parsing with range and
//! alignment validation, register-name resolution, label address
//! assignment, and the per-format bit packing (R, I, S, B, U and J).
//! Reading source text, splitting lines into tokens and printing output
//! belong to the caller.

pub mod assembler;
pub mod encoder;
pub mod errors;
pub mod immediate;
pub mod register;
pub mod symbols;
pub mod text;
