//! Immediate-value parsing and validation.
//!
//! A numeric literal is read in the base announced by its prefix (`0x`
//! for 16, `0o` for 8, `0b` for 2, none for 10).  A prefixed literal is
//! the unsigned bit pattern of the immediate: when it sets the sign bit
//! of its field width it is reinterpreted as the negative value with
//! that two's-complement pattern (`0xfff` as a 12-bit immediate means
//! -1).  A decimal literal is the signed value itself and carries an
//! optional leading `-` or `+`.
//!
//! After that reading, branch and jump offsets (the 13- and 21-bit
//! widths) must be even, and every value must lie in the range of its
//! width.  On success the parser hands back the value masked to the
//! field width, ready for the encoder to scatter into an instruction
//! word.

use vstd::arithmetic::div_mod::{
    lemma_add_mod_noop, lemma_fundamental_div_mod, lemma_fundamental_div_mod_converse_mod,
    lemma_mod_multiples_vanish, lemma_mul_mod_noop_left, lemma_small_mod,
};
use vstd::arithmetic::mul::lemma_mul_nonnegative;
use vstd::prelude::*;

use crate::errors::{asm_error, AsmError, AsmErrorKind, AsmErrorView};

verus! {

// ------------------------------------------------------------------
// The mathematical reading of a literal.
// ------------------------------------------------------------------

/// What a well-formed literal denotes: `value` is its base
/// interpretation, and `pattern` records whether it was written with a
/// radix prefix and therefore stands for an unsigned bit pattern.
pub struct Literal {
    pub pattern: bool,
    pub value: int,
}

/// The value of `c` as a hexadecimal digit, or 16 when `c` is no digit
/// at all (so that it is a valid digit in no supported base).
pub open spec fn spec_digit(c: char) -> int {
    let u = c as u32;
    if 48 <= u <= 57 {
        u - 48
    } else if 97 <= u <= 102 {
        u - 87
    } else if 65 <= u <= 70 {
        u - 55
    } else {
        16
    }
}

/// True when `c` is a digit of `base`.
pub open spec fn is_base_digit(c: char, base: int) -> bool {
    spec_digit(c) < base
}

/// The non-negative integer written by the digit string `s` in `base`.
pub open spec fn digits_value(s: Seq<char>, base: int) -> int
    decreases s.len(),
{
    if s.len() == 0 {
        0
    } else {
        digits_value(s.drop_last(), base) * base + spec_digit(s.last())
    }
}

/// True when every character of `s` is a digit of `base`.
pub open spec fn all_base_digits(s: Seq<char>, base: int) -> bool {
    forall|j: int| 0 <= j < s.len() ==> is_base_digit(s[j], base)
}

/// The base announced by a radix prefix, or 0 when `s` has none and is
/// to be read as decimal.
pub open spec fn radix_prefix_base(s: Seq<char>) -> int {
    if s.len() >= 2 && s[0] == '0' && s[1] == 'x' {
        16
    } else if s.len() >= 2 && s[0] == '0' && s[1] == 'o' {
        8
    } else if s.len() >= 2 && s[0] == '0' && s[1] == 'b' {
        2
    } else {
        0
    }
}

/// The reading of the literal `s`: `None` when `s` is not an integer
/// in its base (step 1 of the algorithm), otherwise its base
/// interpretation.  A radix-prefixed literal is a bare digit string and
/// denotes a non-negative pattern; a decimal literal may carry one
/// leading sign.
pub open spec fn spec_literal(s: Seq<char>) -> Option<Literal> {
    let base = radix_prefix_base(s);
    if base != 0 {
        let body = s.skip(2);
        if body.len() > 0 && all_base_digits(body, base) {
            Some(Literal { pattern: true, value: digits_value(body, base) })
        } else {
            None
        }
    } else {
        let signed = s.len() > 0 && (s[0] == '-' || s[0] == '+');
        let negative = s.len() > 0 && s[0] == '-';
        let body = if signed {
            s.skip(1)
        } else {
            s
        };
        if body.len() > 0 && all_base_digits(body, 10) {
            Some(
                Literal {
                    pattern: false,
                    value: if negative {
                        -digits_value(body, 10)
                    } else {
                        digits_value(body, 10)
                    },
                },
            )
        } else {
            None
        }
    }
}

// ------------------------------------------------------------------
// Validation against a field width.
// ------------------------------------------------------------------

/// Two's-complement reinterpretation over a width whose sign bit is
/// `half` and whose modulus is `full`: a bit pattern with the sign bit
/// set stands for a negative value.  Decimal literals and patterns
/// outside the width are left unchanged.
pub open spec fn reinterpret(l: Literal, half: int, full: int) -> int {
    if l.pattern && half <= l.value < full {
        l.value - full
    } else {
        l.value
    }
}

/// Validation of a signed immediate of range [-half, half-1] and
/// modulus `full == 2 * half`: an odd value fails alignment first when
/// the width requires even values, a value outside the range is
/// rejected next, and an accepted value is masked to the field.
pub open spec fn spec_signed_field(l: Literal, half: int, full: int, align_two: bool) -> Result<
    int,
    AsmErrorKind,
> {
    let v = reinterpret(l, half, full);
    if align_two && v % 2 != 0 {
        Err(AsmErrorKind::AlignmentFailure)
    } else if v < -half || v >= half {
        Err(AsmErrorKind::ImmediateOutOfRange)
    } else {
        Ok(v % full)
    }
}

/// Validation of an unsigned immediate of range [0, full-1]; no sign
/// reinterpretation and no alignment demand.
pub open spec fn spec_unsigned_field(l: Literal, full: int) -> Result<int, AsmErrorKind> {
    if l.value < 0 || l.value >= full {
        Err(AsmErrorKind::ImmediateOutOfRange)
    } else {
        Ok(l.value)
    }
}

/// The whole contract of `parse_12_bit_immediate`: a 12-bit signed
/// immediate for the I and S formats.
pub open spec fn spec_parse_imm_12(s: Seq<char>) -> Result<u16, AsmErrorKind> {
    match spec_literal(s) {
        None => Err(AsmErrorKind::InvalidLiteral),
        Some(l) => match spec_signed_field(l, 2048, 4096, false) {
            Ok(f) => Ok(f as u16),
            Err(k) => Err(k),
        },
    }
}

/// The whole contract of `parse_13_bit_immediate`: a 13-bit signed,
/// two-byte aligned branch offset for the B format.
pub open spec fn spec_parse_imm_13(s: Seq<char>) -> Result<u16, AsmErrorKind> {
    match spec_literal(s) {
        None => Err(AsmErrorKind::InvalidLiteral),
        Some(l) => match spec_signed_field(l, 4096, 8192, true) {
            Ok(f) => Ok(f as u16),
            Err(k) => Err(k),
        },
    }
}

/// The whole contract of `parse_20_bit_immediate`: the unsigned 20-bit
/// immediate of the U format, placed in the high bits by the encoder
/// and never sign-extended.
pub open spec fn spec_parse_imm_20(s: Seq<char>) -> Result<u32, AsmErrorKind> {
    match spec_literal(s) {
        None => Err(AsmErrorKind::InvalidLiteral),
        Some(l) => match spec_unsigned_field(l, 0x100000) {
            Ok(f) => Ok(f as u32),
            Err(k) => Err(k),
        },
    }
}

/// The whole contract of `parse_21_bit_immediate`: a 21-bit signed,
/// two-byte aligned jump offset for the J format.
pub open spec fn spec_parse_imm_21(s: Seq<char>) -> Result<u32, AsmErrorKind> {
    match spec_literal(s) {
        None => Err(AsmErrorKind::InvalidLiteral),
        Some(l) => match spec_signed_field(l, 0x100000, 0x200000, true) {
            Ok(f) => Ok(f as u32),
            Err(k) => Err(k),
        },
    }
}

/// The whole contract of `parse_32_bit_immediate`: a full-word signed
/// immediate.
pub open spec fn spec_parse_imm_32(s: Seq<char>) -> Result<u32, AsmErrorKind> {
    match spec_literal(s) {
        None => Err(AsmErrorKind::InvalidLiteral),
        Some(l) => match spec_signed_field(l, 0x80000000, 0x100000000, false) {
            Ok(f) => Ok(f as u32),
            Err(k) => Err(k),
        },
    }
}

/// Validation of a branch offset already computed from a label: the
/// same checks as a 13-bit literal, on the value itself.
pub open spec fn spec_branch_offset_field(v: int) -> Result<u16, AsmErrorKind> {
    match spec_signed_field(Literal { pattern: false, value: v }, 4096, 8192, true) {
        Ok(f) => Ok(f as u16),
        Err(k) => Err(k),
    }
}

/// Validation of a jump offset already computed from a label: the same
/// checks as a 21-bit literal, on the value itself.
pub open spec fn spec_jump_offset_field(v: int) -> Result<u32, AsmErrorKind> {
    match spec_signed_field(Literal { pattern: false, value: v }, 0x100000, 0x200000, true) {
        Ok(f) => Ok(f as u32),
        Err(k) => Err(k),
    }
}

/// The view of the diagnostic a parser builds for error kind `k`.
pub open spec fn err_view(k: AsmErrorKind, line: nat, token: Seq<char>) -> AsmErrorView {
    AsmErrorView { kind: k, line: line, token: token }
}

// ------------------------------------------------------------------
// Executable literal scanning.
// ------------------------------------------------------------------

/// The outcome of scanning a literal.  A magnitude of 2^32 or more is
/// only recorded as `big` (with its parity in `odd`); every width this
/// assembler knows rejects such a value, so the exact magnitude is not
/// needed.
struct ScannedLiteral {
    ok: bool,
    pattern: bool,
    negative: bool,
    big: bool,
    magnitude: u64,
    odd: bool,
}

/// How a `ScannedLiteral` stands for the reading `l`.
spec fn scan_repr(p: ScannedLiteral, l: Literal) -> bool {
    &&& p.ok
    &&& p.pattern == l.pattern
    &&& p.odd == (l.value % 2 != 0)
    &&& (l.pattern ==> l.value >= 0 && !p.negative)
    &&& (!p.big ==> p.magnitude < 0x100000000 && l.value == if p.negative {
        -(p.magnitude as int)
    } else {
        p.magnitude as int
    })
    &&& (p.big ==> (if p.negative {
        l.value <= -0x100000000
    } else {
        l.value >= 0x100000000
    }))
}

/// Negating an integer keeps its parity.
proof fn lemma_neg_parity(x: int)
    ensures
        ((-x) % 2 != 0) == (x % 2 != 0),
{
    lemma_fundamental_div_mod(x, 2);
    let q = x / 2;
    let r = x % 2;
    if r == 0 {
        lemma_fundamental_div_mod_converse_mod(-x, 2, -q, 0);
    } else {
        lemma_fundamental_div_mod_converse_mod(-x, 2, -q - 1, 2 - r);
    }
}

/// Converts one character to its value as a digit of `base`.
fn digit_in_base(c: char, base: u64) -> (r: Option<u64>)
    requires
        base == 2 || base == 8 || base == 10 || base == 16,
    ensures
        match r {
            Some(d) => is_base_digit(c, base as int) && d == spec_digit(c) && d < base,
            None => !is_base_digit(c, base as int),
        },
{
    let u = c as u32;
    let d: u64 = if 48 <= u && u <= 57 {
        (u - 48) as u64
    } else if 97 <= u && u <= 102 {
        (u - 87) as u64
    } else if 65 <= u && u <= 70 {
        (u - 55) as u64
    } else {
        return None;
    };
    if d < base {
        Some(d)
    } else {
        None
    }
}

/// Scans the literal `s`: prefix, optional decimal sign, then digits,
/// accumulating the magnitude and its parity.
fn scan_literal(s: &str) -> (p: ScannedLiteral)
    ensures
        match spec_literal(s@) {
            None => !p.ok,
            Some(l) => scan_repr(p, l),
        },
{
    let n = s.unicode_len();
    let mut base: u64 = 10;
    let mut start: usize = 0;
    let mut pattern = false;
    let mut negative = false;
    if n >= 2 && s.get_char(0) == '0' {
        let c1 = s.get_char(1);
        if c1 == 'x' {
            base = 16;
            start = 2;
            pattern = true;
        } else if c1 == 'o' {
            base = 8;
            start = 2;
            pattern = true;
        } else if c1 == 'b' {
            base = 2;
            start = 2;
            pattern = true;
        }
    }
    if !pattern && n >= 1 {
        let c0 = s.get_char(0);
        if c0 == '-' {
            negative = true;
            start = 1;
        } else if c0 == '+' {
            start = 1;
        }
    }
    proof {
        assert(radix_prefix_base(s@) == if pattern {
            base as int
        } else {
            0
        });
    }
    let ghost body = s@.subrange(start as int, n as int);
    if start >= n {
        return ScannedLiteral {
            ok: false,
            pattern: false,
            negative: false,
            big: false,
            magnitude: 0,
            odd: false,
        };
    }
    let mut acc: u64 = 0;
    let mut big = false;
    let mut par: u64 = 0;
    let mut i: usize = start;
    while i < n
        invariant
            n == s@.len(),
            start <= i <= n,
            base == 2 || base == 8 || base == 10 || base == 16,
            body == s@.subrange(start as int, n as int),
            pattern ==> radix_prefix_base(s@) == base as int && start == 2 && !negative,
            !pattern ==> radix_prefix_base(s@) == 0 && base == 10,
            !pattern ==> negative == (s@.len() > 0 && s@[0] == '-'),
            !pattern ==> start == (if s@.len() > 0 && (s@[0] == '-' || s@[0] == '+') {
                1int
            } else {
                0int
            }),
            forall|j: int| 0 <= j < i - start ==> is_base_digit(body[j], base as int),
            par <= 1,
            par as int == digits_value(body.take(i - start), base as int) % 2,
            digits_value(body.take(i - start), base as int) >= 0,
            !big ==> acc < 0x100000000 && acc as int == digits_value(
                body.take(i - start),
                base as int,
            ),
            big ==> digits_value(body.take(i - start), base as int) >= 0x100000000,
        decreases n - i,
    {
        let c = s.get_char(i);
        let d = match digit_in_base(c, base) {
            Some(d) => d,
            None => {
                proof {
                    if pattern {
                        assert(body =~= s@.skip(2));
                    } else if start == 1 {
                        assert(body =~= s@.skip(1));
                    } else {
                        assert(body =~= s@);
                    }
                    assert(body[i - start] == c);
                    assert(!all_base_digits(body, base as int));
                }
                return ScannedLiteral {
                    ok: false,
                    pattern: false,
                    negative: false,
                    big: false,
                    magnitude: 0,
                    odd: false,
                };
            },
        };
        proof {
            let k = i - start;
            let prev = body.take(k);
            let next = body.take(k + 1);
            assert(next.drop_last() =~= prev);
            assert(next.last() == body[k]);
            let dv = digits_value(prev, base as int);
            lemma_mul_nonnegative(dv, base as int);
            assert(digits_value(next, base as int) == dv * (base as int) + spec_digit(c));
            assert(par * base + d < 64) by (nonlinear_arith)
                requires
                    par <= 1,
                    base <= 16,
                    d < 16,
            ;
            // parity of the grown magnitude
            lemma_mul_mod_noop_left(dv, base as int, 2);
            lemma_add_mod_noop((par as int) * (base as int), d as int, 2);
            lemma_add_mod_noop(dv * (base as int), d as int, 2);
            if big {
                assert(dv * (base as int) >= 0x100000000) by (nonlinear_arith)
                    requires
                        dv >= 0x100000000,
                        base >= 2,
                ;
            } else {
                assert(acc * base + d < 0x2000000000) by (nonlinear_arith)
                    requires
                        acc < 0x100000000,
                        base <= 16,
                        d < 16,
                ;
            }
        }
        par = (par * base + d) % 2;
        if !big {
            acc = acc * base + d;
            if acc >= 0x100000000 {
                big = true;
            }
        }
        i = i + 1;
    }
    proof {
        assert(body.take(n - start) =~= body);
        if pattern {
            assert(body =~= s@.skip(2));
        } else if start == 1 {
            assert(body =~= s@.skip(1));
        } else {
            assert(body =~= s@);
        }
        if negative {
            lemma_neg_parity(digits_value(body, base as int));
        }
    }
    ScannedLiteral { ok: true, pattern, negative, big, magnitude: acc, odd: par == 1 }
}

// ------------------------------------------------------------------
// Executable validation.
// ------------------------------------------------------------------

/// Subtracting the even modulus keeps parity, so the reinterpreted
/// value is odd exactly when the literal's base value is.
proof fn lemma_reinterpret_parity(l: Literal, half: int, full: int)
    requires
        full == 2 * half,
    ensures
        (reinterpret(l, half, full) % 2 != 0) == (l.value % 2 != 0),
{
    if l.pattern && half <= l.value < full {
        lemma_mod_multiples_vanish(-half, l.value, 2);
    }
}

/// Checks a scanned value against a signed width: sign bit at `half`,
/// modulus `full`.
fn signed_field(p: &ScannedLiteral, Ghost(l): Ghost<Literal>, half: u64, full: u64, align_two: bool) -> (r:
    Result<u64, AsmErrorKind>)
    requires
        scan_repr(*p, l),
        full == 2 * half,
        4 <= full <= 0x100000000,
    ensures
        match r {
            Ok(f) => spec_signed_field(l, half as int, full as int, align_two) == Ok::<
                int,
                AsmErrorKind,
            >(f as int) && f < full,
            Err(k) => spec_signed_field(l, half as int, full as int, align_two) == Err::<
                int,
                AsmErrorKind,
            >(k),
        },
{
    proof {
        lemma_reinterpret_parity(l, half as int, full as int);
    }
    if align_two && p.odd {
        return Err(AsmErrorKind::AlignmentFailure);
    }
    if p.big {
        return Err(AsmErrorKind::ImmediateOutOfRange);
    }
    let mag = p.magnitude;
    let v: i64 = if p.pattern && mag >= half && mag < full {
        mag as i64 - full as i64
    } else if p.negative {
        -(mag as i64)
    } else {
        mag as i64
    };
    proof {
        assert(v as int == reinterpret(l, half as int, full as int));
    }
    if v < -(half as i64) || v >= half as i64 {
        return Err(AsmErrorKind::ImmediateOutOfRange);
    }
    if v >= 0 {
        proof {
            lemma_small_mod(v as nat, full as nat);
        }
        Ok(v as u64)
    } else {
        proof {
            lemma_fundamental_div_mod_converse_mod(v as int, full as int, -1, v + full);
        }
        Ok((v + full as i64) as u64)
    }
}

/// Checks a scanned value against an unsigned width of modulus `full`.
fn unsigned_field(p: &ScannedLiteral, Ghost(l): Ghost<Literal>, full: u64) -> (r: Result<
    u64,
    AsmErrorKind,
>)
    requires
        scan_repr(*p, l),
        0 < full <= 0x100000000,
    ensures
        match r {
            Ok(f) => spec_unsigned_field(l, full as int) == Ok::<int, AsmErrorKind>(f as int) && f
                < full,
            Err(k) => spec_unsigned_field(l, full as int) == Err::<int, AsmErrorKind>(k),
        },
{
    if p.big {
        return Err(AsmErrorKind::ImmediateOutOfRange);
    }
    if p.negative && p.magnitude > 0 {
        return Err(AsmErrorKind::ImmediateOutOfRange);
    }
    if p.magnitude >= full {
        return Err(AsmErrorKind::ImmediateOutOfRange);
    }
    Ok(p.magnitude)
}

// ------------------------------------------------------------------
// The public parsers, one per field width.
// ------------------------------------------------------------------

/// Parses a 12-bit signed immediate (range [-2048, 2047]) and returns
/// its 12-bit field.
pub fn parse_12_bit_immediate(imm: &str, line: usize) -> (r: Result<u16, AsmError>)
    ensures
        (match r {
            Ok(f) => spec_parse_imm_12(imm@) == Ok::<u16, AsmErrorKind>(f),
            Err(e) => spec_parse_imm_12(imm@) is Err && e@ == err_view(
                spec_parse_imm_12(imm@)->Err_0,
                line as nat,
                imm@,
            ),
        }),
{
    let p = scan_literal(imm);
    if !p.ok {
        return Err(asm_error(AsmErrorKind::InvalidLiteral, line, imm));
    }
    let ghost l = spec_literal(imm@)->0;
    match signed_field(&p, Ghost(l), 2048, 4096, false) {
        Ok(f) => Ok(f as u16),
        Err(k) => Err(asm_error(k, line, imm)),
    }
}

/// Parses a 13-bit signed, two-byte aligned branch offset (range
/// [-4096, 4095], even) and returns its 13-bit field.
pub fn parse_13_bit_immediate(imm: &str, line: usize) -> (r: Result<u16, AsmError>)
    ensures
        (match r {
            Ok(f) => spec_parse_imm_13(imm@) == Ok::<u16, AsmErrorKind>(f),
            Err(e) => spec_parse_imm_13(imm@) is Err && e@ == err_view(
                spec_parse_imm_13(imm@)->Err_0,
                line as nat,
                imm@,
            ),
        }),
{
    let p = scan_literal(imm);
    if !p.ok {
        return Err(asm_error(AsmErrorKind::InvalidLiteral, line, imm));
    }
    let ghost l = spec_literal(imm@)->0;
    match signed_field(&p, Ghost(l), 4096, 8192, true) {
        Ok(f) => Ok(f as u16),
        Err(k) => Err(asm_error(k, line, imm)),
    }
}

/// Parses the unsigned 20-bit immediate of the U format (range
/// [0, 0xfffff]) and returns it unchanged.
pub fn parse_20_bit_immediate(imm: &str, line: usize) -> (r: Result<u32, AsmError>)
    ensures
        (match r {
            Ok(f) => spec_parse_imm_20(imm@) == Ok::<u32, AsmErrorKind>(f),
            Err(e) => spec_parse_imm_20(imm@) is Err && e@ == err_view(
                spec_parse_imm_20(imm@)->Err_0,
                line as nat,
                imm@,
            ),
        }),
{
    let p = scan_literal(imm);
    if !p.ok {
        return Err(asm_error(AsmErrorKind::InvalidLiteral, line, imm));
    }
    let ghost l = spec_literal(imm@)->0;
    match unsigned_field(&p, Ghost(l), 0x100000) {
        Ok(f) => Ok(f as u32),
        Err(k) => Err(asm_error(k, line, imm)),
    }
}

/// Parses a 21-bit signed, two-byte aligned jump offset (range
/// [-1048576, 1048575], even) and returns its 21-bit field.
pub fn parse_21_bit_immediate(imm: &str, line: usize) -> (r: Result<u32, AsmError>)
    ensures
        (match r {
            Ok(f) => spec_parse_imm_21(imm@) == Ok::<u32, AsmErrorKind>(f),
            Err(e) => spec_parse_imm_21(imm@) is Err && e@ == err_view(
                spec_parse_imm_21(imm@)->Err_0,
                line as nat,
                imm@,
            ),
        }),
{
    let p = scan_literal(imm);
    if !p.ok {
        return Err(asm_error(AsmErrorKind::InvalidLiteral, line, imm));
    }
    let ghost l = spec_literal(imm@)->0;
    match signed_field(&p, Ghost(l), 0x100000, 0x200000, true) {
        Ok(f) => Ok(f as u32),
        Err(k) => Err(asm_error(k, line, imm)),
    }
}

/// Parses a full-word signed immediate (range [-2^31, 2^31-1], with
/// patterns up to 0xffffffff) and returns its 32-bit field.
pub fn parse_32_bit_immediate(imm: &str, line: usize) -> (r: Result<u32, AsmError>)
    ensures
        (match r {
            Ok(f) => spec_parse_imm_32(imm@) == Ok::<u32, AsmErrorKind>(f),
            Err(e) => spec_parse_imm_32(imm@) is Err && e@ == err_view(
                spec_parse_imm_32(imm@)->Err_0,
                line as nat,
                imm@,
            ),
        }),
{
    let p = scan_literal(imm);
    if !p.ok {
        return Err(asm_error(AsmErrorKind::InvalidLiteral, line, imm));
    }
    let ghost l = spec_literal(imm@)->0;
    match signed_field(&p, Ghost(l), 0x80000000, 0x100000000, false) {
        Ok(f) => Ok(f as u32),
        Err(k) => Err(asm_error(k, line, imm)),
    }
}

// ------------------------------------------------------------------
// Label offsets.
// ------------------------------------------------------------------

/// Builds the parity and representation facts for a plain offset value.
fn offset_scan(offset: i64) -> (r: (ScannedLiteral, Ghost<Literal>))
    requires
        -0x100000000 < offset < 0x100000000,
    ensures
        scan_repr(r.0, r.1@),
        r.1@ == (Literal { pattern: false, value: offset as int }),
{
    let negative = offset < 0;
    let magnitude: u64 = if negative {
        (-offset) as u64
    } else {
        offset as u64
    };
    let odd = magnitude % 2 == 1;
    proof {
        if negative {
            lemma_neg_parity(magnitude as int);
        }
    }
    (
        ScannedLiteral { ok: true, pattern: false, negative, big: false, magnitude, odd },
        Ghost(Literal { pattern: false, value: offset as int }),
    )
}

/// Validates a branch offset computed from a label (target address
/// minus current address) exactly as a written 13-bit offset would be:
/// even, in [-4096, 4095], masked to 13 bits.
pub fn branch_offset_field(offset: i64) -> (r: Result<u16, AsmErrorKind>)
    requires
        -0x100000000 < offset < 0x100000000,
    ensures
        (match r {
            Ok(f) => spec_branch_offset_field(offset as int) == Ok::<u16, AsmErrorKind>(f),
            Err(k) => spec_branch_offset_field(offset as int) == Err::<u16, AsmErrorKind>(k),
        }),
{
    let (p, l) = offset_scan(offset);
    match signed_field(&p, l, 4096, 8192, true) {
        Ok(f) => Ok(f as u16),
        Err(k) => Err(k),
    }
}

/// Validates a jump offset computed from a label exactly as a written
/// 21-bit offset would be: even, in [-1048576, 1048575], masked to 21
/// bits.
pub fn jump_offset_field(offset: i64) -> (r: Result<u32, AsmErrorKind>)
    requires
        -0x100000000 < offset < 0x100000000,
    ensures
        (match r {
            Ok(f) => spec_jump_offset_field(offset as int) == Ok::<u32, AsmErrorKind>(f),
            Err(k) => spec_jump_offset_field(offset as int) == Err::<u32, AsmErrorKind>(k),
        }),
{
    let (p, l) = offset_scan(offset);
    match signed_field(&p, l, 0x100000, 0x200000, true) {
        Ok(f) => Ok(f as u32),
        Err(k) => Err(k),
    }
}

// ------------------------------------------------------------------
// Laws.
// ------------------------------------------------------------------

/// The signed reading of a 12-bit field: the inverse the processor
/// applies when it sign-extends the field out of the instruction word.
pub open spec fn sign_extend_12(f: u16) -> int {
    if f >= 2048 {
        f - 4096
    } else {
        f as int
    }
}

/// Round trip for 12-bit immediates: whenever a literal is accepted,
/// the accepted value lies in [-2048, 2047] and sign-extending the
/// returned 12-bit field recovers that value exactly.
pub proof fn lemma_parse_12_round_trip(s: Seq<char>)
    requires
        spec_parse_imm_12(s) is Ok,
    ensures
        ({
            let v = reinterpret(spec_literal(s)->0, 2048, 4096);
            -2048 <= v <= 2047 && sign_extend_12(spec_parse_imm_12(s)->Ok_0) == v
        }),
{
    let l = spec_literal(s)->0;
    let v = reinterpret(l, 2048, 4096);
    if v >= 0 {
        lemma_small_mod(v as nat, 4096);
    } else {
        lemma_fundamental_div_mod_converse_mod(v, 4096, -1, v + 4096);
    }
}

/// A literal whose reading exceeds the signed 12-bit range is rejected
/// as out of range.
pub proof fn lemma_parse_12_out_of_range(s: Seq<char>)
    requires
        spec_literal(s) is Some,
        ({
            let v = reinterpret(spec_literal(s)->0, 2048, 4096);
            v < -2048 || v > 2047
        }),
    ensures
        spec_parse_imm_12(s) == Err::<u16, AsmErrorKind>(AsmErrorKind::ImmediateOutOfRange),
{
}

/// An even literal whose reading exceeds the signed 13-bit range is
/// rejected as out of range.  (An odd one fails alignment first; see
/// `lemma_odd_offset_alignment_13`.)
pub proof fn lemma_parse_13_out_of_range(s: Seq<char>)
    requires
        spec_literal(s) is Some,
        spec_literal(s)->0.value % 2 == 0,
        ({
            let v = reinterpret(spec_literal(s)->0, 4096, 8192);
            v < -4096 || v > 4095
        }),
    ensures
        spec_parse_imm_13(s) == Err::<u16, AsmErrorKind>(AsmErrorKind::ImmediateOutOfRange),
{
    lemma_reinterpret_parity(spec_literal(s)->0, 4096, 8192);
}

/// A literal outside [0, 0xfffff] is rejected as an unsigned 20-bit
/// immediate.
pub proof fn lemma_parse_20_out_of_range(s: Seq<char>)
    requires
        spec_literal(s) is Some,
        spec_literal(s)->0.value < 0 || spec_literal(s)->0.value > 0xfffff,
    ensures
        spec_parse_imm_20(s) == Err::<u32, AsmErrorKind>(AsmErrorKind::ImmediateOutOfRange),
{
}

/// An even literal whose reading exceeds the signed 21-bit range is
/// rejected as out of range.
pub proof fn lemma_parse_21_out_of_range(s: Seq<char>)
    requires
        spec_literal(s) is Some,
        spec_literal(s)->0.value % 2 == 0,
        ({
            let v = reinterpret(spec_literal(s)->0, 0x100000, 0x200000);
            v < -0x100000 || v > 0xfffff
        }),
    ensures
        spec_parse_imm_21(s) == Err::<u32, AsmErrorKind>(AsmErrorKind::ImmediateOutOfRange),
{
    lemma_reinterpret_parity(spec_literal(s)->0, 0x100000, 0x200000);
}

/// A literal whose reading exceeds the signed 32-bit range is rejected
/// as out of range.
pub proof fn lemma_parse_32_out_of_range(s: Seq<char>)
    requires
        spec_literal(s) is Some,
        ({
            let v = reinterpret(spec_literal(s)->0, 0x80000000, 0x100000000);
            v < -0x80000000 || v > 0x7fffffff
        }),
    ensures
        spec_parse_imm_32(s) == Err::<u32, AsmErrorKind>(AsmErrorKind::ImmediateOutOfRange),
{
}

/// An odd branch offset, written as a literal, is rejected for
/// alignment, whatever its magnitude.
pub proof fn lemma_odd_offset_alignment_13(s: Seq<char>)
    requires
        spec_literal(s) is Some,
        spec_literal(s)->0.value % 2 != 0,
    ensures
        spec_parse_imm_13(s) == Err::<u16, AsmErrorKind>(AsmErrorKind::AlignmentFailure),
{
    lemma_reinterpret_parity(spec_literal(s)->0, 4096, 8192);
}

/// An odd jump offset, written as a literal, is rejected for
/// alignment, whatever its magnitude.
pub proof fn lemma_odd_offset_alignment_21(s: Seq<char>)
    requires
        spec_literal(s) is Some,
        spec_literal(s)->0.value % 2 != 0,
    ensures
        spec_parse_imm_21(s) == Err::<u32, AsmErrorKind>(AsmErrorKind::AlignmentFailure),
{
    lemma_reinterpret_parity(spec_literal(s)->0, 0x100000, 0x200000);
}

/// An odd offset computed from a label is rejected for alignment, for
/// branches and jumps alike.
pub proof fn lemma_odd_label_offset_alignment(v: int)
    requires
        v % 2 != 0,
    ensures
        spec_branch_offset_field(v) == Err::<u16, AsmErrorKind>(AsmErrorKind::AlignmentFailure),
        spec_jump_offset_field(v) == Err::<u32, AsmErrorKind>(AsmErrorKind::AlignmentFailure),
{
}

} // verus!
