use oviec::build_config::Backend;
use oviec::cli::{create_compiler, format_ovie_source, get_exit_code};
use oviec::error::OvieError;

#[test]
fn exit_codes() {
    assert_eq!(
        get_exit_code(&OvieError::InvariantViolation { stage: "ir".to_string(), message: "m".to_string() }),
        2
    );
    assert_eq!(get_exit_code(&OvieError::Generic { message: "m".to_string() }), 1);
    assert_eq!(get_exit_code(&OvieError::HardwareError("m".to_string())), 1);
}

#[test]
fn compiler_from_options() {
    let c = create_compiler(Some(Backend::Wasm), true, "x86_64");
    assert!(c.debug);
    let d = create_compiler(None, false, "x86_64");
    assert!(!d.debug);
    assert_eq!(d.default_backend, Backend::Interpreter);
}

#[test]
fn format_indents_blocks() {
    let src = "fn main() {\nseeAm 1;\n\n\n}\n";
    assert_eq!(format_ovie_source(src), "fn main() {\n    seeAm 1;\n\n}\n");
}

#[test]
fn format_nested_and_blank_edges() {
    let src = "\n\n  fn f() {\n if x {\n seeAm 2;\n }\n }\n\n";
    assert_eq!(format_ovie_source(src), "fn f() {\n    if x {\n        seeAm 2;\n    }\n}\n");
}

#[test]
fn format_empty_and_closing_inside_line() {
    assert_eq!(format_ovie_source(""), "");
    assert_eq!(format_ovie_source("   \n\t\n"), "");
    assert_eq!(format_ovie_source("a {\nb } c\nd\r\n"), "a {\n    b } c\n\nd\n");
    assert_eq!(format_ovie_source("}\nx"), "}\n\nx\n");
}

#[test]
fn formatting_twice_changes_nothing() {
    let source = "\n\n  fn main() {  \n\n\n   if x {\nseeAm \"a\"\n  }   }\n  \n}\n\n";
    let once = format_ovie_source(source);
    assert_eq!(format_ovie_source(&once), once);
}

#[test]
fn format_spaces_binary_operators() {
    assert_eq!(format_ovie_source("fn main() {\ny = 1+2;   \n}"), "fn main() {\n    y = 1 + 2;\n}\n");
    assert_eq!(format_ovie_source("x=a-b*c"), "x = a - b * c\n");
    assert_eq!(format_ovie_source("y  =   -1"), "y = -1\n");
    assert_eq!(format_ovie_source("if a==b&&c!=d {\n}"), "if a == b && c != d {\n}\n");
    assert_eq!(format_ovie_source("seeAm \"1+2\" + x"), "seeAm \"1+2\" + x\n");
    assert_eq!(format_ovie_source("a+b // a+b"), "a + b // a+b\n");
    assert_eq!(format_ovie_source("x <= y"), "x <= y\n");
}

#[test]
fn format_separates_top_level_declarations() {
    assert_eq!(format_ovie_source("fn a() {}\nfn b() {\n}"), "fn a() {}\n\nfn b() {\n}\n");
    assert_eq!(format_ovie_source("fn a() {\n}\n\n\nfn b() {}"), "fn a() {\n}\n\nfn b() {}\n");
    assert_eq!(format_ovie_source("// doc\nfn f() {}"), "// doc\nfn f() {}\n");
}
