use oviec::error::{
    CodeFix, ErrorCategory, ErrorCode, ErrorExplanation, ErrorReporter, ErrorSeverity, ErrorSuggestion,
    OvieError, SourcePosition, SourceRange,
};

#[test]
fn test_diagnostic_creation() {
    let suggestion = ErrorSuggestion::simple(String::from("Try adding a semicolon"));
    let error = OvieError::parse_error_with_suggestions(1, 10, String::from("Expected semicolon"), vec![suggestion]);

    let diagnostic = error.get_diagnostic().unwrap();
    assert_eq!(diagnostic.code, "E0002");
    assert_eq!(diagnostic.severity, ErrorSeverity::Error);
    assert_eq!(diagnostic.category, ErrorCategory::Syntax);
    assert_eq!(diagnostic.suggestions.len(), 1);
}

#[test]
fn test_error_reporter() {
    let mut reporter = ErrorReporter::new();

    let error1 = OvieError::parse_error(1, 1, String::from("Missing semicolon"));
    let error2 = OvieError::type_error(2, 5, "string", "number", vec![]);

    reporter.add_error(error1);
    reporter.add_error(error2);

    assert_eq!(reporter.error_count(), 2);
    assert_eq!(reporter.warning_count(), 0);
    assert!(reporter.has_errors());
}

#[test]
fn test_human_readable_output() {
    let mut reporter = ErrorReporter::new();
    let error = OvieError::parse_error(1, 10, String::from("Expected semicolon"));
    reporter.add_error(error);

    let output = reporter.to_human_readable();
    assert!(output.contains("error: Expected semicolon [E0002]"));
    assert!(output.contains("line 1, column 10"));
}

#[test]
fn human_readable_report_exact_text() {
    let mut reporter = ErrorReporter::new();
    reporter.add_error(OvieError::parse_error_with_suggestions(
        3,
        7,
        String::from("Expected semicolon"),
        vec![ErrorSuggestion::simple(String::from("Add ';'"))],
    ));
    reporter.add_error(OvieError::security_error(4, 1, "raw pointer", vec![]));
    let expected = "error: Expected semicolon [E0002]\n  --> line 3, column 7\n  help: Add ';'\n  For more information, see: https://ovie-lang.org/docs/errors/E0002\n\nwarning: Unsafe operation detected: raw pointer [E0004]\n  --> line 4, column 1\n  For more information, see: https://ovie-lang.org/docs/errors/E0004\n\nerror: aborting due to 1 previous error\n";
    assert_eq!(reporter.to_human_readable(), expected);
    assert_eq!(reporter.error_count(), 1);
    assert_eq!(reporter.warning_count(), 1);

    reporter.add_error(OvieError::runtime_error(String::from("boom")));
    assert!(reporter.to_human_readable().ends_with("error: aborting due to 2 previous errors\n"));

    reporter.clear();
    assert_eq!(reporter.to_human_readable(), "");
    assert!(!reporter.has_errors());
}

#[test]
fn reporter_keeps_at_most_max_errors() {
    let mut reporter = ErrorReporter::with_max_errors(2);
    for i in 0..5 {
        reporter.add_error(OvieError::generic(format!("error {}", i)));
    }
    assert_eq!(reporter.diagnostics().len(), 2);
    assert_eq!(reporter.diagnostics()[1].message, "error 1");
    let mut none = ErrorReporter::with_max_errors(0);
    none.add_error(OvieError::generic(String::from("dropped")));
    assert_eq!(none.diagnostics().len(), 0);
}

#[test]
fn legacy_errors_convert_to_diagnostics() {
    let d = OvieError::lex_error(2, 3, String::from("bad")).to_diagnostic();
    assert_eq!(d.code, "E0001");
    assert_eq!(d.category, ErrorCategory::Syntax);
    assert_eq!((d.location.line, d.location.column, d.location.offset), (2, 3, 0));
    assert_eq!(d.help_url.as_deref(), Some("https://ovie-lang.org/docs/errors/E0001"));

    let d = OvieError::io_error(String::from("disk")).to_diagnostic();
    assert_eq!(d.code, "E0007");
    assert_eq!(d.category, ErrorCategory::Io);
    assert_eq!((d.location.line, d.location.column), (1, 1));

    let d = OvieError::invariant_violation(String::from("HIR"), String::from("broken")).to_diagnostic();
    assert_eq!(d.code, "E0014");
    assert_eq!(d.message, "Invariant violation in HIR: broken");

    let d = OvieError::SerdeJson(String::from("eof")).into_diagnostic();
    assert_eq!(d.code, "E0013");
    assert_eq!(d.message, "JSON serialization/deserialization error: eof");

    let d = OvieError::type_error(1, 2, "i32", "bool", vec![]).into_diagnostic();
    assert_eq!(d.code, "E0003");
    assert_eq!(d.message, "Type mismatch: expected i32, found bool");
    assert_eq!(d.context.len(), 2);
    assert_eq!(d.context[0], (String::from("expected_type"), String::from("i32")));
}

#[test]
fn severity_and_code_tables() {
    assert_eq!(ErrorSeverity::Warning.as_str(), "warning");
    assert_eq!(ErrorSeverity::Fatal.as_display_str(), "FATAL");
    assert_eq!(ErrorSeverity::Fatal.priority(), 5);
    assert_eq!(ErrorSeverity::Hint.priority(), 1);
    assert!(ErrorSeverity::Error.stops_compilation());
    assert!(!ErrorSeverity::Warning.stops_compilation());
    assert_eq!(ErrorCode::ELex001.as_str(), "E_LEX_001");
}

#[test]
fn positions_and_ranges() {
    let p = SourcePosition::new(None, 3, 4, 10);
    assert_eq!(p.display(), "3:4");
    let f = SourcePosition::in_file(String::from("main.ov"), 3, 4, 10);
    assert_eq!(f.display(), "main.ov:3:4");
    assert!(p.is_valid());
    assert!(!SourcePosition::new(None, 0, 4, 10).is_valid());
    let r = SourceRange::new(SourcePosition::new(None, 1, 1, 0), SourcePosition::new(None, 1, 5, 4));
    assert_eq!(r.length(), 4);
    assert!(r.contains(&SourcePosition::new(None, 1, 3, 2)));
    assert!(!r.contains(&SourcePosition::new(None, 1, 5, 4)));
    let fix = CodeFix::replace_text(String::from("fix"), SourcePosition::new(None, 1, 1, 0), SourcePosition::new(None, 1, 2, 1), String::from(";"));
    assert_eq!(fix.replacements.len(), 1);
    let s = ErrorSuggestion::with_fix(String::from("Add it"), fix);
    assert!(s.has_auto_fix());
    let _ = ErrorExplanation::for_error_code(&ErrorCode::ELex001);
}
