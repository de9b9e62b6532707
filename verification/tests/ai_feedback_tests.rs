use oviec::ai_feedback::{
    category_name, common_causes, common_triggers, fix_complexity, fix_types, learning_objective, requires_context,
    resolution_strategy,
};
use oviec::error::{ErrorCategory, ErrorReporter, ErrorSuggestion, OvieError};

#[test]
fn category_names_are_lower_case() {
    assert_eq!(category_name(ErrorCategory::Syntax), "syntax");
    assert_eq!(category_name(ErrorCategory::Io), "io");
    assert_eq!(category_name(ErrorCategory::Performance), "performance");
}

#[test]
fn triggers_and_causes_by_code() {
    assert_eq!(common_triggers("E0002"), vec!["missing_semicolon", "unmatched_brackets", "invalid_syntax"]);
    assert_eq!(common_triggers("E9999"), vec!["unknown_pattern"]);
    assert_eq!(common_causes("E0003"), vec!["wrong_type", "missing_cast", "api_misuse"]);
    assert_eq!(common_causes(""), vec!["unknown_cause"]);
}

#[test]
fn strategies_and_objectives_by_category() {
    assert_eq!(resolution_strategy(ErrorCategory::Type), "type_annotation_or_conversion");
    assert_eq!(resolution_strategy(ErrorCategory::Io), "general_debugging");
    assert_eq!(learning_objective(ErrorCategory::Security), "Learn safe programming practices in Ovie");
    assert_eq!(learning_objective(ErrorCategory::Style), "General Ovie programming proficiency");
}

#[test]
fn fix_kinds_follow_the_suggestions() {
    let mut d = OvieError::parse_error(1, 1, String::from("x")).into_diagnostic();
    assert_eq!(fix_complexity(&d), "complex");
    assert!(fix_types(&d).is_empty());
    d.suggestions.push(ErrorSuggestion::simple(String::from("a")));
    d.suggestions.push(ErrorSuggestion::new(String::from("b"), 900));
    assert_eq!(fix_types(&d), vec!["general_guidance", "high_confidence_suggestion"]);
    assert_eq!(fix_complexity(&d), "simple");
}

#[test]
fn context_is_required_when_present() {
    let mut d = OvieError::parse_error(1, 1, String::from("x")).into_diagnostic();
    assert!(!requires_context(&d));
    d.context.push((String::from("k"), String::from("v")));
    assert!(requires_context(&d));
}

#[test]
fn category_summary_in_first_seen_order() {
    let mut reporter = ErrorReporter::new();
    reporter.add_error(OvieError::type_error(1, 1, "a", "b", vec![]));
    reporter.add_error(OvieError::parse_error(2, 1, String::from("p")));
    reporter.add_error(OvieError::type_error(3, 1, "c", "d", vec![]));
    let summary = reporter.category_summary();
    assert_eq!(summary, vec![(String::from("type"), 2), (String::from("syntax"), 1)]);
}

#[test]
fn learning_opportunities_of_repeated_categories() {
    let mut reporter = ErrorReporter::new();
    for i in 0..4 {
        reporter.add_error(OvieError::type_error(i + 1, 1, "a", "b", vec![]));
    }
    reporter.add_error(OvieError::parse_error_with_suggestions(
        9,
        1,
        String::from("p"),
        vec![ErrorSuggestion::simple(String::from("fix"))],
    ));
    let ops = reporter.learning_opportunities();
    assert_eq!(ops.len(), 2);
    assert_eq!(ops[0].kind, "pattern_recognition");
    assert_eq!(ops[0].category, Some(String::from("type")));
    assert_eq!(ops[0].description, "Multiple type errors suggest need for focused learning");
    assert_eq!(ops[0].priority, "high");
    assert_eq!(ops[1].kind, "knowledge_gap");
    assert_eq!(ops[1].category, None);
    assert_eq!(ops[1].priority, "high");
}

#[test]
fn no_opportunities_for_single_suggested_errors() {
    let mut reporter = ErrorReporter::new();
    reporter.add_error(OvieError::parse_error_with_suggestions(
        1,
        1,
        String::from("p"),
        vec![ErrorSuggestion::simple(String::from("fix"))],
    ));
    assert!(reporter.learning_opportunities().is_empty());
}
