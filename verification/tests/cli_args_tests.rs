use oviec::build_config::Backend;
use oviec::cli_args::{help, parse_args, rules_help, version, ArgsOutcome, Command, OutputFormat};

fn args(words: &[&str]) -> Vec<String> {
    words.iter().map(|w| w.to_string()).collect()
}

fn parsed(words: &[&str]) -> oviec::cli_args::CliArgs {
    match parse_args(&args(words)) {
        ArgsOutcome::Parsed(a) => a,
        other => panic!("expected parsed arguments, got {:?}", other),
    }
}

#[test]
fn no_arguments_is_missing_command() {
    assert!(matches!(parse_args(&args(&["oviec"])), ArgsOutcome::MissingCommand));
    assert!(matches!(parse_args(&args(&[])), ArgsOutcome::MissingCommand));
}

#[test]
fn run_is_the_default_command() {
    let a = parsed(&["oviec", "hello.ov"]);
    assert_eq!(a.command, Command::Run);
    assert_eq!(a.input_file, Some(String::from("hello.ov")));
    assert_eq!(a.format, OutputFormat::Pretty);
    assert!(!a.debug);
    assert!(a.backend.is_none());
}

#[test]
fn command_and_options_are_read() {
    let a = parsed(&["oviec", "compile", "-b", "WASM", "-o", "out.wasm", "--debug", "main.ov", "other.ov"]);
    assert_eq!(a.command, Command::Compile);
    assert_eq!(a.backend, Some(Backend::Wasm));
    assert_eq!(a.output_file, Some(String::from("out.wasm")));
    assert!(a.debug);
    assert_eq!(a.input_file, Some(String::from("main.ov")));
}

#[test]
fn dump_format_and_unknown_backend() {
    let a = parsed(&["oviec", "dump-hir", "-f", "json", "--backend", "nothing", "x.ov"]);
    assert_eq!(a.command, Command::DumpHir);
    assert_eq!(a.format, OutputFormat::Json);
    assert!(a.backend.is_none());
    let b = parsed(&["oviec", "dump-ast", "--format", "compact"]);
    assert_eq!(b.format, OutputFormat::Compact);
    let c = parsed(&["oviec", "dump-ast", "--format", "yaml"]);
    assert_eq!(c.format, OutputFormat::Pretty);
}

#[test]
fn explain_subcommands() {
    assert_eq!(parsed(&["oviec", "explain", "error", "a.ov"]).command, Command::ExplainError);
    assert_eq!(parsed(&["oviec", "explain", "type", "a.ov"]).command, Command::ExplainType);
    let a = parsed(&["oviec", "explain", "--rule", "E001"]);
    assert_eq!(a.command, Command::Explain);
    assert_eq!(a.rule_id, Some(String::from("E001")));
}

#[test]
fn flag_aliases_name_commands() {
    assert_eq!(parsed(&["oviec", "--version"]).command, Command::Version);
    assert_eq!(parsed(&["oviec", "-V"]).command, Command::Version);
    assert_eq!(parsed(&["oviec", "-h"]).command, Command::Help);
    assert_eq!(parsed(&["oviec", "--self-check"]).command, Command::SelfCheck);
    assert_eq!(parsed(&["oviec", "--tokens", "f.ov"]).command, Command::Tokens);
    assert_eq!(parsed(&["oviec", "format", "f.ov"]).command, Command::Fmt);
    assert_eq!(parsed(&["oviec", "--env"]).command, Command::Env);
}

#[test]
fn last_command_word_wins() {
    assert_eq!(parsed(&["oviec", "check", "build"]).command, Command::Build);
}

#[test]
fn option_without_value_ends_reading() {
    let a = parsed(&["oviec", "check", "-o"]);
    assert_eq!(a.command, Command::Check);
    assert!(a.output_file.is_none());
}

#[test]
fn unknown_option_is_reported() {
    match parse_args(&args(&["oviec", "run", "--fast", "x.ov"])) {
        ArgsOutcome::UnknownArgument(a) => assert_eq!(a, "--fast"),
        other => panic!("expected an unknown argument, got {:?}", other),
    }
}

#[test]
fn help_names_the_program() {
    let h = help("oviec");
    assert!(h.starts_with("Ovie Compiler - Stage 2.3 Complete Module System\n\nUSAGE:\n    oviec <COMMAND> [OPTIONS] [INPUT_FILE]\n"));
    assert!(h.contains("    -d, --debug                 Enable debug output\n"));
    assert!(h.ends_with("For more information, visit: https://ovie-lang.org/docs\n"));
}

#[test]
fn rules_help_lists_the_rules() {
    let r = rules_help();
    assert!(r.starts_with("Usage: oviec explain --rule <RULE_ID>\n\nKnown rules:\n"));
    assert!(r.contains("  use_after_move           — use of a moved variable\n"));
}

#[test]
fn version_text_holds_the_build_information() {
    let v = version("2026-01-01", "abc123", "x86_64", "linux", "1.80");
    assert!(v.starts_with("Ovie Compiler (oviec) v2.3.0 - Stage 2.3\n"));
    assert!(v.contains("  Build Date: 2026-01-01\n  Git Hash: abc123\n  Target: x86_64-linux\n  Rust Version: 1.80\n"));
}
