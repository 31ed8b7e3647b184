use cargo_decompile::options::{Opts, OptsError};
use cargo_decompile::tool::Tool;

#[test]
fn resolve_keeps_every_value() {
    let opts = Opts::resolve(
        "main".to_string(),
        true,
        "app".to_string(),
        Some("x86_64-unknown-linux-musl".to_string()),
        "radare2",
    )
    .unwrap();
    assert_eq!(
        opts,
        Opts {
            s: "main".to_string(),
            release: true,
            bin: "app".to_string(),
            target: Some("x86_64-unknown-linux-musl".to_string()),
            tool: Tool::Radare2,
        }
    );
}

#[test]
fn resolve_without_target_or_release() {
    let opts = Opts::resolve("main".to_string(), false, "app".to_string(), None, "rizin").unwrap();
    assert_eq!(opts.s, "main");
    assert!(!opts.release);
    assert_eq!(opts.bin, "app");
    assert_eq!(opts.target, None);
    assert_eq!(opts.tool, Tool::Rizin);
}

#[test]
fn resolve_refuses_an_unknown_tool() {
    let r = Opts::resolve("main".to_string(), false, "app".to_string(), None, "ghidra");
    assert_eq!(r, Err(OptsError::UnknownTool));
}

#[test]
fn resolve_matches_the_tool_exactly() {
    let r = Opts::resolve("main".to_string(), false, "app".to_string(), None, "Rizin");
    assert_eq!(r, Err(OptsError::UnknownTool));
    let r = Opts::resolve("main".to_string(), false, "app".to_string(), None, "");
    assert_eq!(r, Err(OptsError::UnknownTool));
}

#[test]
fn resolve_refuses_an_empty_symbol() {
    let r = Opts::resolve(String::new(), false, "app".to_string(), None, "rizin");
    assert_eq!(r, Err(OptsError::EmptySymbol));
}

#[test]
fn resolve_refuses_an_empty_binary() {
    let r = Opts::resolve("main".to_string(), false, String::new(), None, "rizin");
    assert_eq!(r, Err(OptsError::EmptyBinary));
}

#[test]
fn resolve_reports_the_tool_before_the_names() {
    let r = Opts::resolve(String::new(), false, String::new(), None, "ida");
    assert_eq!(r, Err(OptsError::UnknownTool));
    let r = Opts::resolve(String::new(), false, String::new(), None, "rizin");
    assert_eq!(r, Err(OptsError::EmptySymbol));
}
