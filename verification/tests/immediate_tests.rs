use rv32_assembler::errors::AsmErrorKind;
use rv32_assembler::immediate::{
    branch_offset_field, jump_offset_field, parse_12_bit_immediate, parse_13_bit_immediate,
    parse_20_bit_immediate, parse_21_bit_immediate, parse_32_bit_immediate,
};

#[test]
fn decimal_12_bit_values() {
    assert_eq!(parse_12_bit_immediate("5", 1), Ok(5));
    assert_eq!(parse_12_bit_immediate("+5", 1), Ok(5));
    assert_eq!(parse_12_bit_immediate("0", 1), Ok(0));
    assert_eq!(parse_12_bit_immediate("-1", 1), Ok(0xfff));
    assert_eq!(parse_12_bit_immediate("2047", 1), Ok(0x7ff));
    assert_eq!(parse_12_bit_immediate("-2048", 1), Ok(0x800));
}

#[test]
fn radix_12_bit_patterns() {
    assert_eq!(parse_12_bit_immediate("0xfff", 1), Ok(0xfff));
    assert_eq!(parse_12_bit_immediate("0x7ff", 1), Ok(0x7ff));
    assert_eq!(parse_12_bit_immediate("0x800", 1), Ok(0x800));
    assert_eq!(parse_12_bit_immediate("0o17", 1), Ok(15));
    assert_eq!(parse_12_bit_immediate("0b101", 1), Ok(5));
    assert_eq!(parse_12_bit_immediate("0xAbC", 1), Ok(0xabc));
}

#[test]
fn twelve_bit_round_trip_recovers_value() {
    // For valid n in [-2048, 2047]: parse, re-extract the 12-bit field,
    // sign-extend, and recover n exactly.
    for n in [-2048i32, -2047, -1024, -1, 0, 1, 7, 1024, 2046, 2047] {
        let text = format!("{}", n);
        let field = parse_12_bit_immediate(&text, 1).unwrap();
        assert!(field < 4096);
        let recovered = if field >= 2048 {
            field as i32 - 4096
        } else {
            field as i32
        };
        assert_eq!(recovered, n);
    }
}

#[test]
fn twelve_bit_out_of_range() {
    let e = parse_12_bit_immediate("2048", 3).unwrap_err();
    assert_eq!(e.kind, AsmErrorKind::ImmediateOutOfRange);
    assert_eq!(e.line, 3);
    assert_eq!(e.token, "2048");
    assert_eq!(
        parse_12_bit_immediate("-2049", 1).unwrap_err().kind,
        AsmErrorKind::ImmediateOutOfRange
    );
    assert_eq!(
        parse_12_bit_immediate("0x1000", 1).unwrap_err().kind,
        AsmErrorKind::ImmediateOutOfRange
    );
    // Magnitudes far past any width still classify as out of range.
    assert_eq!(
        parse_12_bit_immediate("0xffffffffff", 1).unwrap_err().kind,
        AsmErrorKind::ImmediateOutOfRange
    );
    assert_eq!(
        parse_12_bit_immediate("123456789123456789123456789", 1).unwrap_err().kind,
        AsmErrorKind::ImmediateOutOfRange
    );
}

#[test]
fn invalid_literals() {
    for bad in ["", "0x", "0b", "0o", "abc", "12a", "0b102", "0o8", "-0x5", "--4", "0xg1", "+"] {
        let e = parse_12_bit_immediate(bad, 9).unwrap_err();
        assert_eq!(e.kind, AsmErrorKind::InvalidLiteral, "literal {:?}", bad);
        assert_eq!(e.line, 9);
        assert_eq!(e.token, bad);
    }
}

#[test]
fn thirteen_bit_branch_offsets() {
    assert_eq!(parse_13_bit_immediate("-8", 1), Ok(0x1ff8));
    assert_eq!(parse_13_bit_immediate("8", 1), Ok(8));
    assert_eq!(parse_13_bit_immediate("4094", 1), Ok(4094));
    assert_eq!(parse_13_bit_immediate("-4096", 1), Ok(0x1000));
    assert_eq!(parse_13_bit_immediate("0x1ffe", 1), Ok(0x1ffe));
}

#[test]
fn odd_branch_offsets_fail_alignment() {
    for odd in ["7", "-1", "4095", "-4095", "0x1001", "99999999999"] {
        let e = parse_13_bit_immediate(odd, 2).unwrap_err();
        assert_eq!(e.kind, AsmErrorKind::AlignmentFailure, "literal {:?}", odd);
    }
}

#[test]
fn thirteen_bit_out_of_range() {
    assert_eq!(
        parse_13_bit_immediate("4096", 1).unwrap_err().kind,
        AsmErrorKind::ImmediateOutOfRange
    );
    assert_eq!(
        parse_13_bit_immediate("-4098", 1).unwrap_err().kind,
        AsmErrorKind::ImmediateOutOfRange
    );
    assert_eq!(
        parse_13_bit_immediate("0x2000", 1).unwrap_err().kind,
        AsmErrorKind::ImmediateOutOfRange
    );
}

#[test]
fn twenty_bit_unsigned_values() {
    assert_eq!(parse_20_bit_immediate("0x100", 1), Ok(0x100));
    assert_eq!(parse_20_bit_immediate("0", 1), Ok(0));
    assert_eq!(parse_20_bit_immediate("0xfffff", 1), Ok(0xfffff));
    assert_eq!(parse_20_bit_immediate("1048575", 1), Ok(0xfffff));
    assert_eq!(
        parse_20_bit_immediate("0x100000", 1).unwrap_err().kind,
        AsmErrorKind::ImmediateOutOfRange
    );
    assert_eq!(
        parse_20_bit_immediate("-1", 1).unwrap_err().kind,
        AsmErrorKind::ImmediateOutOfRange
    );
}

#[test]
fn twenty_one_bit_jump_offsets() {
    assert_eq!(parse_21_bit_immediate("-4", 1), Ok(0x1ffffc));
    assert_eq!(parse_21_bit_immediate("4", 1), Ok(4));
    assert_eq!(parse_21_bit_immediate("-1048576", 1), Ok(0x100000));
    assert_eq!(parse_21_bit_immediate("1048574", 1), Ok(0xffffe));
    assert_eq!(parse_21_bit_immediate("0x100000", 1), Ok(0x100000));
    assert_eq!(
        parse_21_bit_immediate("3", 1).unwrap_err().kind,
        AsmErrorKind::AlignmentFailure
    );
    assert_eq!(
        parse_21_bit_immediate("1048576", 1).unwrap_err().kind,
        AsmErrorKind::ImmediateOutOfRange
    );
}

#[test]
fn thirty_two_bit_values() {
    assert_eq!(parse_32_bit_immediate("0xffffffff", 1), Ok(0xffffffff));
    assert_eq!(parse_32_bit_immediate("-1", 1), Ok(0xffffffff));
    assert_eq!(parse_32_bit_immediate("2147483647", 1), Ok(0x7fffffff));
    assert_eq!(parse_32_bit_immediate("-2147483648", 1), Ok(0x80000000));
    assert_eq!(
        parse_32_bit_immediate("2147483648", 1).unwrap_err().kind,
        AsmErrorKind::ImmediateOutOfRange
    );
    assert_eq!(
        parse_32_bit_immediate("0x100000000", 1).unwrap_err().kind,
        AsmErrorKind::ImmediateOutOfRange
    );
}

#[test]
fn label_offset_fields() {
    assert_eq!(branch_offset_field(-8), Ok(0x1ff8));
    assert_eq!(branch_offset_field(8), Ok(8));
    assert_eq!(branch_offset_field(7), Err(AsmErrorKind::AlignmentFailure));
    assert_eq!(branch_offset_field(-7), Err(AsmErrorKind::AlignmentFailure));
    assert_eq!(branch_offset_field(4096), Err(AsmErrorKind::ImmediateOutOfRange));
    assert_eq!(jump_offset_field(-4), Ok(0x1ffffc));
    assert_eq!(jump_offset_field(9), Err(AsmErrorKind::AlignmentFailure));
    assert_eq!(jump_offset_field(0x200000), Err(AsmErrorKind::ImmediateOutOfRange));
}
