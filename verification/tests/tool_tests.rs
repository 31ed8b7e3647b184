use cargo_decompile::tool::Tool;

#[test]
fn from_str_resolves_rizin() {
    assert_eq!(Tool::from_str("rizin"), Ok(Tool::Rizin));
}

#[test]
fn from_str_resolves_radare2() {
    assert_eq!(Tool::from_str("radare2"), Ok(Tool::Radare2));
}

#[test]
fn from_str_refuses_other_names() {
    assert_eq!(Tool::from_str("ghidra"), Err("unknown tool".to_string()));
    assert_eq!(Tool::from_str("r2"), Err("unknown tool".to_string()));
    assert_eq!(Tool::from_str("rizin "), Err("unknown tool".to_string()));
    assert_eq!(Tool::from_str(" radare2"), Err("unknown tool".to_string()));
}

#[test]
fn from_str_is_case_sensitive() {
    assert_eq!(Tool::from_str("Rizin"), Err("unknown tool".to_string()));
    assert_eq!(Tool::from_str("RADARE2"), Err("unknown tool".to_string()));
}

#[test]
fn from_str_refuses_the_empty_name() {
    assert_eq!(Tool::from_str(""), Err("unknown tool".to_string()));
}

#[test]
fn analysis_command_takes_no_argument() {
    assert_eq!(Tool::Rizin.analysis_command(), "aa");
    assert_eq!(Tool::Radare2.analysis_command(), "aa");
}

#[test]
fn decompile_query_for_main() {
    assert_eq!(Tool::Rizin.decompile_query("main"), "pdg @ $(afl~main[0])");
    assert_eq!(Tool::Radare2.decompile_query("main"), "pdg @ $(afl~main[0])");
}

#[test]
fn decompile_query_is_the_same_for_both_backends() {
    let symbol = "core::fmt::write";
    assert_eq!(
        Tool::Rizin.decompile_query(symbol),
        Tool::Radare2.decompile_query(symbol)
    );
}

#[test]
fn decompile_query_inserts_the_symbol_unescaped() {
    assert_eq!(
        Tool::Rizin.decompile_query("a b;c[1])"),
        "pdg @ $(afl~a b;c[1])[0])"
    );
    assert_eq!(Tool::Rizin.decompile_query(""), "pdg @ $(afl~[0])");
    assert_eq!(Tool::Radare2.decompile_query("sym.é"), "pdg @ $(afl~sym.é[0])");
}
