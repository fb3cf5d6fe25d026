use rv32_assembler::encoder::{
    parse_b_type, parse_i_type, parse_j_type, parse_r_type, parse_s_type, parse_u_type,
};
use rv32_assembler::errors::AsmErrorKind;

#[test]
fn r_type_base_instructions() {
    assert_eq!(parse_r_type("add", 10, 11, 12), 0x00c58533);
    assert_eq!(parse_r_type("sub", 8, 9, 18), 0x41248433);
    assert_eq!(parse_r_type("xor", 10, 11, 12), 0x00c5c533);
    assert_eq!(parse_r_type("mul", 10, 11, 12), 0x02c58533);
}

#[test]
fn r_type_atomics_and_ordering_suffixes() {
    assert_eq!(parse_r_type("amoswap.w.aq", 10, 11, 12), 0x0cc5a52f);
    assert_eq!(parse_r_type("amoor.w", 5, 6, 7), 0x407322af);
    assert_eq!(parse_r_type("lr.w.aq.rl", 10, 11, 0), 0x1605a52f);
}

#[test]
fn encoding_is_deterministic() {
    // The same validated inputs give the same word, every time.
    assert_eq!(parse_r_type("add", 10, 11, 12), parse_r_type("add", 10, 11, 12));
    assert_eq!(parse_i_type("addi", 10, 0, 5), parse_i_type("addi", 10, 0, 5));
    assert_eq!(parse_s_type("sw", 2, 10, 16), parse_s_type("sw", 2, 10, 16));
    assert_eq!(
        parse_b_type("beq", 10, 11, 0x1ff8),
        parse_b_type("beq", 10, 11, 0x1ff8)
    );
    assert_eq!(parse_u_type("lui", 10, 0x100), parse_u_type("lui", 10, 0x100));
    assert_eq!(parse_j_type(1, 2048), parse_j_type(1, 2048));
}

#[test]
fn i_type_instructions() {
    assert_eq!(parse_i_type("addi", 10, 0, 5), Ok(0x00500513));
    assert_eq!(parse_i_type("addi", 10, 0, 0xfff), Ok(0xfff00513));
    assert_eq!(parse_i_type("andi", 10, 11, 0xfff), Ok(0xfff5f513));
    assert_eq!(parse_i_type("jalr", 1, 5, 0), Ok(0x000280e7));
    assert_eq!(parse_i_type("lw", 10, 2, 16), Ok(0x01012503));
    assert_eq!(parse_i_type("ecall", 0, 0, 0), Ok(0x00000073));
    assert_eq!(parse_i_type("ebreak", 0, 0, 1), Ok(0x00100073));
}

#[test]
fn shift_immediates() {
    assert_eq!(parse_i_type("slli", 11, 12, 31), Ok(0x01f61593));
    // srai is told apart from srli by bit 10 of the immediate field.
    assert_eq!(parse_i_type("srai", 11, 12, 3), Ok(0x40365593));
    assert_eq!(parse_i_type("slli", 11, 12, 32), Err(AsmErrorKind::ShiftAmountOutOfRange));
    assert_eq!(parse_i_type("srli", 11, 12, 100), Err(AsmErrorKind::ShiftAmountOutOfRange));
    assert_eq!(parse_i_type("srai", 11, 12, 32), Err(AsmErrorKind::ShiftAmountOutOfRange));
}

#[test]
fn s_type_scatters_the_offset() {
    assert_eq!(parse_s_type("sw", 2, 10, 16), 0x00a12823);
}

#[test]
fn b_type_scatters_the_offset() {
    assert_eq!(parse_b_type("beq", 10, 11, 0x1ff8), 0xfeb50ce3);
    assert_eq!(parse_b_type("bne", 5, 6, 8), 0x00629463);
}

#[test]
fn u_type_places_immediate_high() {
    // The 20-bit immediate lands in bits 31:12, above rd and the opcode.
    assert_eq!(parse_u_type("lui", 10, 0x100), 0x00100537);
    assert_eq!(parse_u_type("auipc", 5, 0xfffff), 0xfffff297);
}

#[test]
fn j_type_scatters_the_offset() {
    assert_eq!(parse_j_type(1, 2048), 0x001000ef);
    assert_eq!(parse_j_type(1, 0x1ffffc), 0xffdff0ef);
}
