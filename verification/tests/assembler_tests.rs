use rv32_assembler::assembler::{assemble, Instruction, LineKind, SourceLine};
use rv32_assembler::errors::AsmErrorKind;

fn instruction(mnemonic: &str, operands: &[&str]) -> Instruction {
    Instruction {
        mnemonic: mnemonic.to_string(),
        operands: operands.iter().map(|s| s.to_string()).collect(),
    }
}

fn stmt(line: usize, mnemonic: &str, operands: &[&str]) -> SourceLine {
    SourceLine {
        line,
        kind: LineKind::Statement { label: None, instruction: Some(instruction(mnemonic, operands)) },
    }
}

fn labeled_stmt(line: usize, label: &str, mnemonic: &str, operands: &[&str]) -> SourceLine {
    SourceLine {
        line,
        kind: LineKind::Statement {
            label: Some(label.to_string()),
            instruction: Some(instruction(mnemonic, operands)),
        },
    }
}

fn label_only(line: usize, label: &str) -> SourceLine {
    SourceLine { line, kind: LineKind::Statement { label: Some(label.to_string()), instruction: None } }
}

fn directive(line: usize) -> SourceLine {
    SourceLine { line, kind: LineKind::Directive }
}

#[test]
fn addi_end_to_end() {
    let lines = vec![stmt(1, "addi", &["a0", "zero", "5"])];
    assert_eq!(assemble(&lines), Ok(vec![0x00500513]));
}

#[test]
fn add_end_to_end() {
    let lines = vec![stmt(1, "add", &["a0", "a1", "a2"])];
    assert_eq!(assemble(&lines), Ok(vec![0x00c58533]));
}

#[test]
fn backward_branch_encodes_minus_eight() {
    // `loop` sits 8 bytes before the branch, so the B-type immediate is -8.
    let lines = vec![
        labeled_stmt(1, "loop", "add", &["x0", "x0", "x0"]),
        stmt(2, "add", &["x0", "x0", "x0"]),
        stmt(3, "beq", &["a0", "a1", "loop"]),
    ];
    assert_eq!(assemble(&lines), Ok(vec![0x00000033, 0x00000033, 0xfeb50ce3]));
}

#[test]
fn forward_branch_resolves_from_the_prescan() {
    // The target is defined after the reference; the first pass has
    // already assigned it address 8, so the offset is +8.
    let lines = vec![
        stmt(1, "beq", &["a0", "a1", "done"]),
        stmt(2, "add", &["x0", "x0", "x0"]),
        labeled_stmt(3, "done", "add", &["x0", "x0", "x0"]),
    ];
    assert_eq!(assemble(&lines), Ok(vec![0x00b50463, 0x00000033, 0x00000033]));
}

#[test]
fn forward_jump_resolves_from_the_prescan() {
    let lines = vec![
        stmt(1, "jal", &["ra", "done"]),
        stmt(2, "add", &["x0", "x0", "x0"]),
        labeled_stmt(3, "done", "add", &["x0", "x0", "x0"]),
    ];
    assert_eq!(assemble(&lines), Ok(vec![0x008000ef, 0x00000033, 0x00000033]));
}

#[test]
fn backward_jump_resolves_from_the_table() {
    let lines = vec![
        labeled_stmt(1, "top", "add", &["x0", "x0", "x0"]),
        stmt(2, "jal", &["ra", "top"]),
    ];
    // The jump sits at address 4 and targets address 0: offset -4.
    assert_eq!(assemble(&lines), Ok(vec![0x00000033, 0xffdff0ef]));
}

#[test]
fn duplicate_label_blames_the_second_occurrence() {
    let lines = vec![
        labeled_stmt(1, "foo", "add", &["x0", "x0", "x0"]),
        stmt(2, "add", &["x0", "x0", "x0"]),
        labeled_stmt(4, "foo", "add", &["x0", "x0", "x0"]),
    ];
    let e = assemble(&lines).unwrap_err();
    assert_eq!(e.kind, AsmErrorKind::DuplicateLabel);
    assert_eq!(e.line, 4);
    assert_eq!(e.token, "foo");
}

#[test]
fn lui_places_immediate_in_high_bits() {
    let lines = vec![stmt(1, "lui", &["a0", "0x100"])];
    assert_eq!(assemble(&lines), Ok(vec![0x00100537]));
}

#[test]
fn label_only_lines_do_not_advance_the_address() {
    // `target` labels the following instruction, 4 bytes after the
    // branch, so the offset is +4.
    let lines = vec![
        stmt(1, "beq", &["a0", "a1", "target"]),
        label_only(2, "target"),
        stmt(3, "add", &["x0", "x0", "x0"]),
    ];
    let words = assemble(&lines).unwrap();
    assert_eq!(words.len(), 2);
    // +4 offset: imm[4:1] = 2.
    assert_eq!(words[0], 0x00b50263);
}

#[test]
fn directives_are_ignored_and_do_not_advance_the_address() {
    let lines = vec![
        directive(1),
        labeled_stmt(2, "loop", "add", &["x0", "x0", "x0"]),
        directive(3),
        stmt(4, "beq", &["a0", "a1", "loop"]),
    ];
    // The branch sits at address 4 and targets address 0: offset -4.
    let words = assemble(&lines).unwrap();
    assert_eq!(words.len(), 2);
    assert_eq!(words[0], 0x00000033);
}

#[test]
fn unknown_instruction_is_reported() {
    let lines = vec![stmt(5, "frobnicate", &["a0"])];
    let e = assemble(&lines).unwrap_err();
    assert_eq!(e.kind, AsmErrorKind::UnknownInstruction);
    assert_eq!(e.line, 5);
    assert_eq!(e.token, "frobnicate");
}

#[test]
fn wrong_operand_count_is_reported() {
    let lines = vec![stmt(2, "add", &["a0", "a1"])];
    let e = assemble(&lines).unwrap_err();
    assert_eq!(e.kind, AsmErrorKind::WrongOperandCount);
    assert_eq!(e.line, 2);
    assert_eq!(e.token, "add");
    let lines = vec![stmt(3, "ecall", &["a0"])];
    assert_eq!(assemble(&lines).unwrap_err().kind, AsmErrorKind::WrongOperandCount);
    let lines = vec![stmt(4, "lui", &["a0"])];
    assert_eq!(assemble(&lines).unwrap_err().kind, AsmErrorKind::WrongOperandCount);
}

#[test]
fn invalid_register_is_reported_with_its_token() {
    let lines = vec![stmt(2, "add", &["a0", "a1", "qq"])];
    let e = assemble(&lines).unwrap_err();
    assert_eq!(e.kind, AsmErrorKind::InvalidRegisterName);
    assert_eq!(e.token, "qq");
}

#[test]
fn invalid_label_names_are_rejected() {
    for bad in ["9lives", "", "has space", "dash-ed"] {
        let lines = vec![SourceLine {
            line: 6,
            kind: LineKind::Statement {
                label: Some(bad.to_string()),
                instruction: Some(instruction("add", &["x0", "x0", "x0"])),
            },
        }];
        let e = assemble(&lines).unwrap_err();
        assert_eq!(e.kind, AsmErrorKind::InvalidLabelName, "label {:?}", bad);
        assert_eq!(e.line, 6);
    }
}

#[test]
fn underscored_label_names_are_accepted() {
    let lines = vec![
        labeled_stmt(1, "_start_1", "add", &["x0", "x0", "x0"]),
        stmt(2, "beq", &["a0", "a1", "_start_1"]),
    ];
    assert!(assemble(&lines).is_ok());
}

#[test]
fn load_and_store_operand_order() {
    // lw a0, 16(sp) tokenizes as [a0, 16, sp]; sw likewise.
    let lines = vec![
        stmt(1, "lw", &["a0", "16", "sp"]),
        stmt(2, "sw", &["a0", "16", "sp"]),
    ];
    assert_eq!(assemble(&lines), Ok(vec![0x01012503, 0x00a12823]));
}

#[test]
fn jalr_takes_rd_rs1_imm() {
    let lines = vec![stmt(1, "jalr", &["ra", "t0", "0"])];
    assert_eq!(assemble(&lines), Ok(vec![0x000280e7]));
}

#[test]
fn environment_instructions_end_to_end() {
    let lines = vec![stmt(1, "ecall", &[]), stmt(2, "ebreak", &[])];
    assert_eq!(assemble(&lines), Ok(vec![0x00000073, 0x00100073]));
}

#[test]
fn atomics_end_to_end() {
    let lines = vec![stmt(1, "amoswap.w.aq", &["a0", "a1", "a2"])];
    assert_eq!(assemble(&lines), Ok(vec![0x0cc5a52f]));
}

#[test]
fn odd_branch_offset_end_to_end() {
    let lines = vec![stmt(1, "beq", &["a0", "a1", "7"])];
    let e = assemble(&lines).unwrap_err();
    assert_eq!(e.kind, AsmErrorKind::AlignmentFailure);
    assert_eq!(e.token, "7");
}

#[test]
fn out_of_range_immediate_end_to_end() {
    let lines = vec![stmt(1, "addi", &["a0", "a1", "5000"])];
    let e = assemble(&lines).unwrap_err();
    assert_eq!(e.kind, AsmErrorKind::ImmediateOutOfRange);
    assert_eq!(e.token, "5000");
}

#[test]
fn shift_amount_end_to_end() {
    let lines = vec![stmt(1, "slli", &["a0", "a1", "32"])];
    let e = assemble(&lines).unwrap_err();
    assert_eq!(e.kind, AsmErrorKind::ShiftAmountOutOfRange);
    assert_eq!(e.token, "32");
}

#[test]
fn labels_resolve_only_for_branches_and_jumps() {
    // An I-type immediate operand naming a label is not a literal.
    let lines = vec![
        labeled_stmt(1, "foo", "add", &["x0", "x0", "x0"]),
        stmt(2, "addi", &["a0", "a1", "foo"]),
    ];
    let e = assemble(&lines).unwrap_err();
    assert_eq!(e.kind, AsmErrorKind::InvalidLiteral);
    assert_eq!(e.token, "foo");
}

#[test]
fn branch_target_may_be_a_written_literal() {
    let lines = vec![stmt(1, "beq", &["a0", "a1", "-8"])];
    assert_eq!(assemble(&lines), Ok(vec![0xfeb50ce3]));
}

#[test]
fn output_is_one_word_per_instruction_in_program_order() {
    let lines = vec![
        stmt(1, "addi", &["a0", "zero", "5"]),
        stmt(2, "add", &["a0", "a1", "a2"]),
        stmt(3, "lui", &["a0", "0x100"]),
    ];
    assert_eq!(
        assemble(&lines),
        Ok(vec![0x00500513, 0x00c58533, 0x00100537])
    );
}

#[test]
fn assembling_twice_gives_identical_output() {
    let lines = vec![
        labeled_stmt(1, "loop", "addi", &["a0", "a0", "-1"]),
        stmt(2, "bne", &["a0", "zero", "loop"]),
    ];
    assert_eq!(assemble(&lines), assemble(&lines));
}

#[test]
fn empty_program_assembles_to_nothing() {
    let lines: Vec<SourceLine> = vec![];
    assert_eq!(assemble(&lines), Ok(vec![]));
}

#[test]
fn fail_fast_stops_at_the_first_error() {
    let lines = vec![
        stmt(1, "addi", &["a0", "zero", "99999"]),
        stmt(2, "frobnicate", &[]),
    ];
    // The immediate error on line 1 is reported, not the unknown
    // mnemonic on line 2.
    let e = assemble(&lines).unwrap_err();
    assert_eq!(e.kind, AsmErrorKind::ImmediateOutOfRange);
    assert_eq!(e.line, 1);
}
