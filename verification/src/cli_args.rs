//! The command line of the compiler driver: its commands and options, how
//! the arguments are read, and the help and version texts.

use vstd::prelude::*;
use crate::build_config::{ascii_lower, backend_named, compiler_version, compiler_version_text, Backend};
use crate::text::{append, owned, same_text};

verus! {

/// The commands of the driver.
#[derive(Debug, Clone, Copy, PartialEq, Eq, Structural)]
pub enum Command {
    New,
    Build,
    BuildPackage,
    Compile,
    Run,
    Check,
    Test,
    Fmt,
    DumpAst,
    DumpHir,
    DumpMir,
    ReportHir,
    ReportMir,
    AnalyzeCfg,
    ExportDot,
    Explain,
    ExplainError,
    ExplainType,
    Analyze,
    SelfCheck,
    Env,
    Version,
    Help,
    Tokens,
}

/// The output formats of the dump commands.
#[derive(Debug, Clone, Copy, PartialEq, Eq, Structural)]
pub enum OutputFormat {
    Json,
    Pretty,
    Compact,
}

/// The arguments of the driver.
#[derive(Debug)]
pub struct CliArgs {
    pub command: Command,
    pub input_file: Option<String>,
    pub output_file: Option<String>,
    pub backend: Option<Backend>,
    pub debug: bool,
    pub format: OutputFormat,
    pub rule_id: Option<String>,
}

/// The arguments of the driver as plain values.
pub struct ArgsView {
    pub command: Command,
    pub input_file: Option<Seq<char>>,
    pub output_file: Option<Seq<char>>,
    pub backend: Option<Backend>,
    pub debug: bool,
    pub format: OutputFormat,
    pub rule_id: Option<Seq<char>>,
}

/// The plain value of an optional text.
pub open spec fn opt_text(o: Option<String>) -> Option<Seq<char>> {
    match o {
        Some(s) => Some(s@),
        None => None,
    }
}

impl View for CliArgs {
    type V = ArgsView;

    open spec fn view(&self) -> ArgsView {
        ArgsView {
            command: self.command,
            input_file: opt_text(self.input_file),
            output_file: opt_text(self.output_file),
            backend: self.backend,
            debug: self.debug,
            format: self.format,
            rule_id: opt_text(self.rule_id),
        }
    }
}

/// What reading the command line gives: the arguments, or the lack of a
/// command (the help is then shown and the driver fails), or an argument
/// that is not understood (reported, and the driver fails).
#[derive(Debug)]
pub enum ArgsOutcome {
    Parsed(CliArgs),
    MissingCommand,
    UnknownArgument(String),
}

/// The arguments before any is read: run, with pretty output.
pub open spec fn default_args() -> ArgsView {
    ArgsView {
        command: Command::Run,
        input_file: None,
        output_file: None,
        backend: None,
        debug: false,
        format: OutputFormat::Pretty,
        rule_id: None,
    }
}

/// The command a word names (`explain` aside, which may take a
/// subcommand).
pub open spec fn command_word(a: Seq<char>) -> Option<Command> {
    if a == "new"@ {
        Some(Command::New)
    } else if a == "build"@ {
        Some(Command::Build)
    } else if a == "build-package"@ {
        Some(Command::BuildPackage)
    } else if a == "compile"@ {
        Some(Command::Compile)
    } else if a == "run"@ {
        Some(Command::Run)
    } else if a == "check"@ {
        Some(Command::Check)
    } else if a == "test"@ {
        Some(Command::Test)
    } else if a == "fmt"@ || a == "format"@ {
        Some(Command::Fmt)
    } else if a == "dump-ast"@ {
        Some(Command::DumpAst)
    } else if a == "dump-hir"@ {
        Some(Command::DumpHir)
    } else if a == "dump-mir"@ {
        Some(Command::DumpMir)
    } else if a == "report-hir"@ {
        Some(Command::ReportHir)
    } else if a == "report-mir"@ {
        Some(Command::ReportMir)
    } else if a == "analyze-cfg"@ {
        Some(Command::AnalyzeCfg)
    } else if a == "export-dot"@ {
        Some(Command::ExportDot)
    } else if a == "analyze"@ {
        Some(Command::Analyze)
    } else if a == "self-check"@ || a == "--self-check"@ {
        Some(Command::SelfCheck)
    } else if a == "env"@ || a == "--env"@ {
        Some(Command::Env)
    } else if a == "version"@ || a == "--version"@ || a == "-V"@ {
        Some(Command::Version)
    } else if a == "help"@ || a == "--help"@ || a == "-h"@ {
        Some(Command::Help)
    } else if a == "--tokens"@ {
        Some(Command::Tokens)
    } else {
        None
    }
}

/// The output format a word names (pretty for any other word).
pub open spec fn format_word(a: Seq<char>) -> OutputFormat {
    if a == "json"@ {
        OutputFormat::Json
    } else if a == "compact"@ {
        OutputFormat::Compact
    } else {
        OutputFormat::Pretty
    }
}

/// Whether a word is an option (it starts with `-`).
pub open spec fn is_option(a: Seq<char>) -> bool {
    a.len() > 0 && a[0] == '-'
}

/// Reading the arguments from position `i` on, into `st`: a command word
/// sets the command; `explain` may be followed by `error` or `type`; an
/// option that takes a value reads the next word (when there is one); a
/// word that is not an option is the input file, the first such word
/// only; any other option is not understood.
pub open spec fn parse_from(args: Seq<Seq<char>>, i: int, st: ArgsView) -> Result<ArgsView, Seq<char>>
    decreases args.len() - i,
{
    if i < 0 || i >= args.len() {
        Ok(st)
    } else {
        let a = args[i];
        let has_next = i + 1 < args.len();
        match command_word(a) {
            Some(c) => parse_from(args, i + 1, ArgsView { command: c, ..st }),
            None => if a == "explain"@ {
                if has_next && args[i + 1] == "error"@ {
                    parse_from(args, i + 2, ArgsView { command: Command::ExplainError, ..st })
                } else if has_next && args[i + 1] == "type"@ {
                    parse_from(args, i + 2, ArgsView { command: Command::ExplainType, ..st })
                } else {
                    parse_from(args, i + 1, ArgsView { command: Command::Explain, ..st })
                }
            } else if a == "--backend"@ || a == "-b"@ {
                if has_next {
                    parse_from(args, i + 2, ArgsView { backend: backend_named(ascii_lower(args[i + 1])), ..st })
                } else {
                    Ok(st)
                }
            } else if a == "--output"@ || a == "-o"@ {
                if has_next {
                    parse_from(args, i + 2, ArgsView { output_file: Some(args[i + 1]), ..st })
                } else {
                    Ok(st)
                }
            } else if a == "--format"@ || a == "-f"@ {
                if has_next {
                    parse_from(args, i + 2, ArgsView { format: format_word(args[i + 1]), ..st })
                } else {
                    Ok(st)
                }
            } else if a == "--debug"@ || a == "-d"@ {
                parse_from(args, i + 1, ArgsView { debug: true, ..st })
            } else if a == "--rule"@ || a == "-r"@ {
                if has_next {
                    parse_from(args, i + 2, ArgsView { rule_id: Some(args[i + 1]), ..st })
                } else {
                    Ok(st)
                }
            } else if !is_option(a) {
                parse_from(
                    args,
                    i + 1,
                    ArgsView {
                        input_file: if st.input_file is None {
                            Some(a)
                        } else {
                            st.input_file
                        },
                        ..st
                    },
                )
            } else {
                Err(a)
            }
        }
    }
}

fn command_of(a: &str) -> (r: Option<Command>)
    ensures
        r == command_word(a@),
{
    if same_text(a, "new") {
        Some(Command::New)
    } else if same_text(a, "build") {
        Some(Command::Build)
    } else if same_text(a, "build-package") {
        Some(Command::BuildPackage)
    } else if same_text(a, "compile") {
        Some(Command::Compile)
    } else if same_text(a, "run") {
        Some(Command::Run)
    } else if same_text(a, "check") {
        Some(Command::Check)
    } else if same_text(a, "test") {
        Some(Command::Test)
    } else if same_text(a, "fmt") || same_text(a, "format") {
        Some(Command::Fmt)
    } else if same_text(a, "dump-ast") {
        Some(Command::DumpAst)
    } else if same_text(a, "dump-hir") {
        Some(Command::DumpHir)
    } else if same_text(a, "dump-mir") {
        Some(Command::DumpMir)
    } else if same_text(a, "report-hir") {
        Some(Command::ReportHir)
    } else if same_text(a, "report-mir") {
        Some(Command::ReportMir)
    } else if same_text(a, "analyze-cfg") {
        Some(Command::AnalyzeCfg)
    } else if same_text(a, "export-dot") {
        Some(Command::ExportDot)
    } else if same_text(a, "analyze") {
        Some(Command::Analyze)
    } else if same_text(a, "self-check") || same_text(a, "--self-check") {
        Some(Command::SelfCheck)
    } else if same_text(a, "env") || same_text(a, "--env") {
        Some(Command::Env)
    } else if same_text(a, "version") || same_text(a, "--version") || same_text(a, "-V") {
        Some(Command::Version)
    } else if same_text(a, "help") || same_text(a, "--help") || same_text(a, "-h") {
        Some(Command::Help)
    } else if same_text(a, "--tokens") {
        Some(Command::Tokens)
    } else {
        None
    }
}

fn format_of(a: &str) -> (r: OutputFormat)
    ensures
        r == format_word(a@),
{
    if same_text(a, "json") {
        OutputFormat::Json
    } else if same_text(a, "compact") {
        OutputFormat::Compact
    } else {
        OutputFormat::Pretty
    }
}

fn starts_with_dash(a: &str) -> (r: bool)
    ensures
        r == is_option(a@),
{
    let w = crate::text::chars_of(a);
    w.len() > 0 && w[0] == '-'
}

/// The texts of a list of arguments.
pub open spec fn args_view(args: Seq<String>) -> Seq<Seq<char>> {
    args.map_values(|s: String| s@)
}

/// Read the command line (the program's name first, then its arguments).
#[verifier::loop_isolation(false)]
pub fn parse_args(args: &Vec<String>) -> (r: ArgsOutcome)
    ensures
        args@.len() < 2 ==> r is MissingCommand,
        args@.len() >= 2 ==> match parse_from(args_view(args@), 1, default_args()) {
            Ok(v) => r matches ArgsOutcome::Parsed(a) && a@ == v,
            Err(w) => r matches ArgsOutcome::UnknownArgument(u) && u@ == w,
        },
{
    if args.len() < 2 {
        return ArgsOutcome::MissingCommand;
    }
    let ghost av = args_view(args@);
    let mut st = CliArgs {
        command: Command::Run,
        input_file: None,
        output_file: None,
        backend: None,
        debug: false,
        format: OutputFormat::Pretty,
        rule_id: None,
    };
    let mut i: usize = 1;
    while i < args.len()
        invariant
            av == args_view(args@),
            1 <= i,
            parse_from(av, 1, default_args()) == parse_from(av, i as int, st@),
        decreases args@.len() - i,
    {
        let a = args[i].as_str();
        assert(a@ == av[i as int]);
        let has_next = i + 1 < args.len();
        proof {
            if has_next {
                assert(args@[i + 1]@ == av[i + 1]);
            }
        }
        match command_of(a) {
            Some(c) => {
                st.command = c;
                i = i + 1;
            },
            None => {
                if same_text(a, "explain") {
                    if has_next && same_text(args[i + 1].as_str(), "error") {
                        st.command = Command::ExplainError;
                        i = i + 2;
                    } else if has_next && same_text(args[i + 1].as_str(), "type") {
                        st.command = Command::ExplainType;
                        i = i + 2;
                    } else {
                        st.command = Command::Explain;
                        i = i + 1;
                    }
                } else if same_text(a, "--backend") || same_text(a, "-b") {
                    if has_next {
                        st.backend = Backend::from_str(args[i + 1].as_str());
                        i = i + 2;
                    } else {
                        i = args.len();
                    }
                } else if same_text(a, "--output") || same_text(a, "-o") {
                    if has_next {
                        st.output_file = Some(args[i + 1].clone());
                        i = i + 2;
                    } else {
                        i = args.len();
                    }
                } else if same_text(a, "--format") || same_text(a, "-f") {
                    if has_next {
                        st.format = format_of(args[i + 1].as_str());
                        i = i + 2;
                    } else {
                        i = args.len();
                    }
                } else if same_text(a, "--debug") || same_text(a, "-d") {
                    st.debug = true;
                    i = i + 1;
                } else if same_text(a, "--rule") || same_text(a, "-r") {
                    if has_next {
                        st.rule_id = Some(args[i + 1].clone());
                        i = i + 2;
                    } else {
                        i = args.len();
                    }
                } else if !starts_with_dash(a) {
                    if st.input_file.is_none() {
                        st.input_file = Some(args[i].clone());
                    }
                    i = i + 1;
                } else {
                    return ArgsOutcome::UnknownArgument(args[i].clone());
                }
            },
        }
    }
    ArgsOutcome::Parsed(st)
}

/// The help text of the driver, for the program's name.
pub open spec fn help_text(program: Seq<char>) -> Seq<char> {
    "Ovie Compiler - Stage 2.3 Complete Module System\n\nUSAGE:\n    "@ + program + " <COMMAND> [OPTIONS] [INPUT_FILE]\n\nESSENTIAL COMMANDS:\n    new <name>          Create a new Ovie project\n    build               Build the current project\n    build-package       Build distribution packages for all platforms\n    run <file>          Compile and run a program (default)\n    check <file>        Check a program for errors without compilation\n    test [dir]          Run tests in directory (default: current)\n    fmt <file>          Format Ovie source code\n    explain             Show explanation for diagnostic rules\n    env                 Show Ovie Runtime Environment (ORE) information\n\nCOMPILATION COMMANDS:\n    compile <file>      Compile a program without running\n    dump-ast <file>     Dump the Abstract Syntax Tree\n    dump-hir <file>     Dump the High-level Intermediate Representation\n    dump-mir <file>     Dump the Mid-level Intermediate Representation\n\nANALYSIS COMMANDS:\n    analyze <file>      Run Aproko analysis and show detailed report\n    explain error <file> Explain errors in a file with reasoning chain\n    explain type <file>  Explain type system and type errors\n    analyze-cfg <file>   Analyze control flow graph\n    export-dot <file>    Export CFG in GraphViz DOT format\n    report-hir <file>    Generate human-readable HIR analysis report\n    report-mir <file>    Generate human-readable MIR analysis report\n\nSYSTEM COMMANDS:\n    self-check          Run compiler self-diagnostics and invariant validation\n    version             Show version and build information\n    help                Show this help message\n\nOPTIONS:\n    -b, --backend <BACKEND>     Compilation backend [interpreter, llvm, wasm, hir, mir]\n    -o, --output <FILE>         Output file (default: stdout)\n    -f, --format <FORMAT>       Output format [json, pretty, compact] (default: pretty)\n    -r, --rule <RULE_ID>        Specific diagnostic rule ID for explain command\n    -d, --debug                 Enable debug output\n    -h, --help                  Show this help message\n    -V, --version               Show version information\n        --tokens                Dump tokens for bootstrap verification\n\nEXIT CODES:\n    0    Success\n    1    Compilation error, runtime error, or general failure\n    2    Compiler invariant violation (critical internal error)\n\nEXAMPLES:\n    # Project management\n    oviec new my-project                  # Create new project\n    oviec build                           # Build current project\n    oviec build-package                   # Build distribution packages\n    oviec test                            # Run all tests\n\n    # Running and checking code\n    oviec run hello.ov                    # Run a program\n    oviec check hello.ov                  # Check for errors\n    oviec fmt hello.ov                    # Format code\n\n    # Analysis and debugging\n    oviec analyze hello.ov                # Run Aproko analysis\n    oviec explain error hello.ov          # Explain errors with reasoning\n    oviec explain type hello.ov           # Explain type system\n    oviec explain --rule E001             # Explain diagnostic rule\n\n    # Advanced compilation\n    oviec compile -b llvm hello.ov        # Compile with LLVM backend\n    oviec dump-hir -f json hello.ov       # Dump HIR as JSON\n    oviec analyze-cfg hello.ov            # Analyze control flow\n\n    # System information\n    oviec --self-check                    # Run self-diagnostics\n    oviec --version                       # Show version\n    oviec --tokens file.ov                # Dump tokens for bootstrap verification\n    oviec env                             # Show environment info\n\nFor more information, visit: https://ovie-lang.org/docs\n"@
}

/// The help text of the driver.
pub fn help(program: &str) -> (r: String)
    ensures
        r@ == help_text(program@),
{
    let mut out = owned("Ovie Compiler - Stage 2.3 Complete Module System\n\nUSAGE:\n    ");
    append(&mut out, program);
    append(&mut out, " <COMMAND> [OPTIONS] [INPUT_FILE]\n\nESSENTIAL COMMANDS:\n    new <name>          Create a new Ovie project\n    build               Build the current project\n    build-package       Build distribution packages for all platforms\n    run <file>          Compile and run a program (default)\n    check <file>        Check a program for errors without compilation\n    test [dir]          Run tests in directory (default: current)\n    fmt <file>          Format Ovie source code\n    explain             Show explanation for diagnostic rules\n    env                 Show Ovie Runtime Environment (ORE) information\n\nCOMPILATION COMMANDS:\n    compile <file>      Compile a program without running\n    dump-ast <file>     Dump the Abstract Syntax Tree\n    dump-hir <file>     Dump the High-level Intermediate Representation\n    dump-mir <file>     Dump the Mid-level Intermediate Representation\n\nANALYSIS COMMANDS:\n    analyze <file>      Run Aproko analysis and show detailed report\n    explain error <file> Explain errors in a file with reasoning chain\n    explain type <file>  Explain type system and type errors\n    analyze-cfg <file>   Analyze control flow graph\n    export-dot <file>    Export CFG in GraphViz DOT format\n    report-hir <file>    Generate human-readable HIR analysis report\n    report-mir <file>    Generate human-readable MIR analysis report\n\nSYSTEM COMMANDS:\n    self-check          Run compiler self-diagnostics and invariant validation\n    version             Show version and build information\n    help                Show this help message\n\nOPTIONS:\n    -b, --backend <BACKEND>     Compilation backend [interpreter, llvm, wasm, hir, mir]\n    -o, --output <FILE>         Output file (default: stdout)\n    -f, --format <FORMAT>       Output format [json, pretty, compact] (default: pretty)\n    -r, --rule <RULE_ID>        Specific diagnostic rule ID for explain command\n    -d, --debug                 Enable debug output\n    -h, --help                  Show this help message\n    -V, --version               Show version information\n        --tokens                Dump tokens for bootstrap verification\n\nEXIT CODES:\n    0    Success\n    1    Compilation error, runtime error, or general failure\n    2    Compiler invariant violation (critical internal error)\n\nEXAMPLES:\n    # Project management\n    oviec new my-project                  # Create new project\n    oviec build                           # Build current project\n    oviec build-package                   # Build distribution packages\n    oviec test                            # Run all tests\n\n    # Running and checking code\n    oviec run hello.ov                    # Run a program\n    oviec check hello.ov                  # Check for errors\n    oviec fmt hello.ov                    # Format code\n\n    # Analysis and debugging\n    oviec analyze hello.ov                # Run Aproko analysis\n    oviec explain error hello.ov          # Explain errors with reasoning\n    oviec explain type hello.ov           # Explain type system\n    oviec explain --rule E001             # Explain diagnostic rule\n\n    # Advanced compilation\n    oviec compile -b llvm hello.ov        # Compile with LLVM backend\n    oviec dump-hir -f json hello.ov       # Dump HIR as JSON\n    oviec analyze-cfg hello.ov            # Analyze control flow\n\n    # System information\n    oviec --self-check                    # Run self-diagnostics\n    oviec --version                       # Show version\n    oviec --tokens file.ov                # Dump tokens for bootstrap verification\n    oviec env                             # Show environment info\n\nFor more information, visit: https://ovie-lang.org/docs\n");
    out
}

/// The text that lists the known diagnostic rules.
pub open spec fn rules_text() -> Seq<char> {
    "Usage: oviec explain --rule <RULE_ID>\n\nKnown rules:\n  use_after_move           — use of a moved variable\n  hardcoded_sensitive_data — secret embedded in a string literal\n  high_complexity          — function has too many execution paths\n  deep_nesting             — code nested more than 3 levels\n  missing_return           — function missing a return value\n\nRun  oviec analyze <file.ov>  to get rule IDs from your code.\n"@
}

/// The text that lists the known diagnostic rules.
pub fn rules_help() -> (r: String)
    ensures
        r@ == rules_text(),
{
    owned("Usage: oviec explain --rule <RULE_ID>\n\nKnown rules:\n  use_after_move           — use of a moved variable\n  hardcoded_sensitive_data — secret embedded in a string literal\n  high_complexity          — function has too many execution paths\n  deep_nesting             — code nested more than 3 levels\n  missing_return           — function missing a return value\n\nRun  oviec analyze <file.ov>  to get rule IDs from your code.\n")
}

/// The version text of the driver, for the build date, the commit, the
/// target architecture and operating system and the compiler's version.
pub open spec fn version_text(build_date: Seq<char>, git_hash: Seq<char>, arch: Seq<char>, os: Seq<char>, rustc: Seq<char>) -> Seq<char> {
    "Ovie Compiler (oviec) v"@ + compiler_version_text() + " - Stage 2.3\nBuilt with formal compiler invariants and real bootstrap verification\n\nBuild Information:\n  Version: "@ + compiler_version_text() + "\n  Build Date: "@ + build_date + "\n  Git Hash: "@ + git_hash + "\n  Target: "@ + arch + "-"@ + os + "\n  Rust Version: "@ + rustc + "\n\nStage 2.3 Features:\n  ✅ Complete Module System (import/export)\n  ✅ Aproko Knowledge Base\n  ✅ Package Manager (oviec init, add, install)\n  ✅ 11 standard library modules\n  ✅ oviec-analyze binary\n  ✅ Formal compiler invariants with validation\n  ✅ Real bootstrap verification scripts\n  ✅ Multi-stage IR pipeline (AST → HIR → MIR)\n  ✅ Multiple backends (Interpreter, WASM, LLVM)\n  ✅ Aproko analysis engine with explanations\n  ✅ Supply chain security and privacy protection\n  ✅ Deterministic compilation and reproducible builds\n  ✅ Offline-first development environment\n\nCopyright (c) 2026 Ovie Language Team\nLicensed under MIT License\nVisit: https://ovie-lang.org\nSource: https://github.com/southwarridev/ovie\n"@
}

/// The version text of the driver.
pub fn version(build_date: &str, git_hash: &str, arch: &str, os: &str, rustc: &str) -> (r: String)
    ensures
        r@ == version_text(build_date@, git_hash@, arch@, os@, rustc@),
{
    let mut out = owned("Ovie Compiler (oviec) v");
    append(&mut out, compiler_version());
    append(&mut out, " - Stage 2.3\nBuilt with formal compiler invariants and real bootstrap verification\n\nBuild Information:\n  Version: ");
    append(&mut out, compiler_version());
    append(&mut out, "\n  Build Date: ");
    append(&mut out, build_date);
    append(&mut out, "\n  Git Hash: ");
    append(&mut out, git_hash);
    append(&mut out, "\n  Target: ");
    append(&mut out, arch);
    append(&mut out, "-");
    append(&mut out, os);
    append(&mut out, "\n  Rust Version: ");
    append(&mut out, rustc);
    append(&mut out, "\n\nStage 2.3 Features:\n  ✅ Complete Module System (import/export)\n  ✅ Aproko Knowledge Base\n  ✅ Package Manager (oviec init, add, install)\n  ✅ 11 standard library modules\n  ✅ oviec-analyze binary\n  ✅ Formal compiler invariants with validation\n  ✅ Real bootstrap verification scripts\n  ✅ Multi-stage IR pipeline (AST → HIR → MIR)\n  ✅ Multiple backends (Interpreter, WASM, LLVM)\n  ✅ Aproko analysis engine with explanations\n  ✅ Supply chain security and privacy protection\n  ✅ Deterministic compilation and reproducible builds\n  ✅ Offline-first development environment\n\nCopyright (c) 2026 Ovie Language Team\nLicensed under MIT License\nVisit: https://ovie-lang.org\nSource: https://github.com/southwarridev/ovie\n");
    out
}

} // verus!
