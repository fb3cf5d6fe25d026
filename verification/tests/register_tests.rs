use rv32_assembler::errors::AsmErrorKind;
use rv32_assembler::register::parse_register;

#[test]
fn numeric_names_resolve_in_order() {
    for i in 0u8..32 {
        let token = format!("x{}", i);
        assert_eq!(parse_register(&token, 1), Ok(i));
    }
}

#[test]
fn abi_aliases_agree_with_numeric_names() {
    let aliases = [
        ("zero", 0u8),
        ("ra", 1),
        ("sp", 2),
        ("gp", 3),
        ("tp", 4),
        ("t0", 5),
        ("t1", 6),
        ("t2", 7),
        ("s0", 8),
        ("fp", 8),
        ("s1", 9),
        ("a0", 10),
        ("a1", 11),
        ("a2", 12),
        ("a3", 13),
        ("a4", 14),
        ("a5", 15),
        ("a6", 16),
        ("a7", 17),
        ("s2", 18),
        ("s3", 19),
        ("s4", 20),
        ("s5", 21),
        ("s6", 22),
        ("s7", 23),
        ("s8", 24),
        ("s9", 25),
        ("s10", 26),
        ("s11", 27),
        ("t3", 28),
        ("t4", 29),
        ("t5", 30),
        ("t6", 31),
    ];
    for (name, index) in aliases {
        assert_eq!(parse_register(name, 1), Ok(index), "alias {:?}", name);
    }
}

#[test]
fn unknown_register_names_are_rejected() {
    for bad in ["x32", "x-1", "X0", "a8", "s12", "t7", "", "x", "q0", "zero1"] {
        let e = parse_register(bad, 7).unwrap_err();
        assert_eq!(e.kind, AsmErrorKind::InvalidRegisterName, "token {:?}", bad);
        assert_eq!(e.line, 7);
        assert_eq!(e.token, bad);
    }
}
