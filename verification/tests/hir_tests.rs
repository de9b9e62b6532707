use oviec::error::OvieError;
use oviec::hir::{HirType, SourceSpan, SymbolInfo, SymbolTable};

fn info(t: HirType, is_mutable: bool) -> SymbolInfo {
    SymbolInfo { symbol_type: t, is_mutable, is_function: false, span: SourceSpan::default() }
}

fn semantic_message(e: OvieError) -> (usize, usize, String) {
    match e {
        OvieError::SemanticError { line, column, message } => (line, column, message),
        other => panic!("unexpected error {:?}", other),
    }
}

#[test]
fn lookup_after_insert() {
    let mut table = SymbolTable::new();
    assert!(table.insert("x".to_string(), info(HirType::Number, true)).is_ok());
    let found = table.lookup("x").unwrap();
    assert!(matches!(found.symbol_type, HirType::Number));
    assert!(found.is_mutable);
    assert!(table.is_well_formed());
}

#[test]
fn duplicate_in_same_scope_is_refused() {
    let mut table = SymbolTable::new();
    table.insert("x".to_string(), info(HirType::Number, false)).unwrap();
    let e = table.insert("x".to_string(), info(HirType::String, false)).unwrap_err();
    assert_eq!(semantic_message(e), (1, 1, "Symbol 'x' already defined in current scope".to_string()));
    assert!(matches!(table.lookup("x").unwrap().symbol_type, HirType::Number));
}

#[test]
fn unknown_symbol() {
    let table = SymbolTable::new();
    let e = table.lookup("nope").unwrap_err();
    assert_eq!(semantic_message(e), (1, 1, "Symbol 'nope' not found".to_string()));
}

#[test]
fn inner_scope_sees_outer_and_shadows() {
    let mut table = SymbolTable::new();
    table.insert("x".to_string(), info(HirType::Number, false)).unwrap();
    table.insert("y".to_string(), info(HirType::Boolean, false)).unwrap();
    table.enter_scope();
    assert!(matches!(table.lookup("y").unwrap().symbol_type, HirType::Boolean));
    table.insert("x".to_string(), info(HirType::String, true)).unwrap();
    assert!(matches!(table.lookup("x").unwrap().symbol_type, HirType::String));
    table.insert("z".to_string(), info(HirType::Unit, false)).unwrap();
    table.exit_scope();
    assert!(matches!(table.lookup("x").unwrap().symbol_type, HirType::Number));
    assert!(table.lookup("z").is_err());
    table.exit_scope();
    assert!(table.lookup("y").is_ok());
}

#[test]
fn hir_type_error_detection() {
    let f = HirType::Function { params: vec![HirType::Number, HirType::Error], return_type: Box::new(HirType::Unit) };
    assert!(f.contains_error());
    let g = HirType::Range(Box::new(HirType::Struct("P".to_string())));
    assert!(!g.contains_error());
    let copy = f.duplicate();
    assert!(copy.contains_error());
}

#[test]
fn default_span() {
    let s = SourceSpan::default();
    assert_eq!((s.start, s.end, s.line, s.column), (0, 0, 1, 1));
}
