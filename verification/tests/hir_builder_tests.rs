use oviec::ast::{
    AstNode, BinaryOperator, EnumVariant, Expression, FieldInitializer, Literal, Statement, StructField, UnaryOperator,
};
use oviec::error::OvieError;
use oviec::hir::{HirBuilder, HirItem, HirStatementKind, HirType};

fn num(n: f64) -> Expression {
    Expression::Literal(Literal::Number(n.to_bits()))
}

fn text(s: &str) -> Expression {
    Expression::Literal(Literal::String(s.to_string()))
}

fn ident(s: &str) -> Expression {
    Expression::Identifier(s.to_string())
}

fn field(name: &str, t: &str) -> StructField {
    StructField { name: name.to_string(), type_annotation: t.to_string() }
}

fn function(name: &str, params: &[&str], body: Vec<Statement>) -> Statement {
    Statement::Function { name: name.to_string(), parameters: params.iter().map(|p| p.to_string()).collect(), body }
}

fn semantic(e: OvieError) -> String {
    match e {
        OvieError::SemanticError { line: 1, column: 1, message } => message,
        other => panic!("unexpected error {:?}", other),
    }
}

fn transform(statements: Vec<Statement>) -> Result<oviec::hir::HirProgram, OvieError> {
    HirBuilder::new().transform_ast(&AstNode::new(statements))
}

#[test]
fn hello_world_gets_an_implicit_main() {
    let program = transform(vec![Statement::Print { expression: text("Hello") }]).unwrap();
    assert_eq!(program.items.len(), 1);
    match &program.items[0] {
        HirItem::Function(f) => {
            assert_eq!(f.name, "main");
            assert!(f.is_main);
            assert_eq!(f.id, 3);
            assert!(matches!(f.return_type, HirType::Unit));
            assert_eq!(f.body.statements.len(), 1);
            assert_eq!(f.body.statements[0].id, 2);
            match &f.body.statements[0].kind {
                HirStatementKind::Print(e) => {
                    assert_eq!(e.id, 1);
                    assert!(matches!(e.expr_type, HirType::String));
                },
                other => panic!("unexpected statement {:?}", other),
            }
        },
        other => panic!("unexpected item {:?}", other),
    }
    assert_eq!(program.metadata.source_file, "main.ov");
    assert_eq!(program.metadata.compiler_version, "2.3.0");
    assert!(program.metadata.has_main_function);
    assert!(program.validate().is_ok());
    assert!(program.validate_invariants().is_ok());
    let report = program.generate_hir_report().unwrap();
    assert_eq!(
        report,
        "=== HIR Program Analysis Report ===\n\nSource File: main.ov\nCompiler Version: 2.3.0\nHas Main Function: true\nErrors: 0\nWarnings: 0\n\nFunctions: 1\nStructs: 0\nEnums: 0\nGlobals: 0\n\n=== Symbol Table ===\nScopes: 1\n\n=== Type Definitions ===\n\n=== Item Details ===\n\nFunction: main (ID: 3)\n  Is Main: true\n  Parameters: 0\n  Return Type: Unit\n  Statements: 1\n\n"
    );
}

fn point_program() -> Vec<Statement> {
    vec![
        Statement::Struct { name: "Point".to_string(), fields: vec![field("x", "Number"), field("y", "Number")] },
        Statement::Enum {
            name: "Color".to_string(),
            variants: vec![
                EnumVariant { name: "Red".to_string(), data_type: None },
                EnumVariant { name: "Custom".to_string(), data_type: Some("String".to_string()) },
            ],
        },
        function(
            "main",
            &[],
            vec![
                Statement::Assignment {
                    mutable: false,
                    identifier: "p".to_string(),
                    value: Expression::StructInstantiation {
                        struct_name: "Point".to_string(),
                        fields: vec![
                            FieldInitializer { name: "x".to_string(), value: num(1.0) },
                            FieldInitializer { name: "y".to_string(), value: num(2.0) },
                        ],
                    },
                },
                Statement::Print {
                    expression: Expression::Binary {
                        left: Box::new(Expression::FieldAccess { object: Box::new(ident("p")), field: "x".to_string() }),
                        operator: BinaryOperator::Add,
                        right: Box::new(num(1.0)),
                    },
                },
                Statement::Return { value: None },
            ],
        ),
    ]
}

#[test]
fn structs_enums_and_main() {
    let program = transform(point_program()).unwrap();
    assert_eq!(program.items.len(), 3);
    assert!(matches!(&program.items[0], HirItem::Struct(s) if s.id == 1 && s.fields.len() == 2));
    assert!(matches!(&program.items[1], HirItem::Enum(e) if e.id == 2 && e.variants[1].data_type.is_some()));
    match &program.items[2] {
        HirItem::Function(f) => {
            assert_eq!(f.id, 15);
            assert!(matches!(f.return_type, HirType::Unit));
            match &f.body.statements[1].kind {
                HirStatementKind::Print(e) => {
                    assert_eq!(e.id, 12);
                    assert!(matches!(e.expr_type, HirType::Number));
                },
                other => panic!("unexpected statement {:?}", other),
            }
        },
        other => panic!("unexpected item {:?}", other),
    }
    assert!(program.validate_invariants().is_ok());
    let report = program.generate_hir_report().unwrap();
    assert!(report.contains("Functions: 1\nStructs: 1\nEnums: 1\nGlobals: 0\n"));
    assert!(report.contains("=== Symbol Table ===\nScopes: 2\n"));
    assert!(report.contains("=== Type Definitions ===\nStruct Point: 2 fields\nEnum Color: 2 variants\n\n"));
    assert!(report.contains("Struct: Point (ID: 1)\n  Fields: 2\n    x: Number\n    y: Number\n\n"));
    assert!(report.contains("Enum: Color (ID: 2)\n  Variants: 2\n    Red: ()\n    Custom: String\n\n"));
    assert!(report.ends_with(
        "Function: main (ID: 15)\n  Is Main: true\n  Parameters: 0\n  Return Type: Unit\n  Statements: 3\n\n"
    ));
}

#[test]
fn definition_problems_are_reported() {
    let cases: Vec<(Statement, &str)> = vec![
        (
            Statement::Struct { name: "S".to_string(), fields: vec![field("a", "Number"), field("a", "String")] },
            "Duplicate field 'a' in struct 'S'",
        ),
        (Statement::Struct { name: "S".to_string(), fields: vec![field("a", "Foo")] }, "Unknown type: Foo"),
        (
            Statement::Struct { name: "String".to_string(), fields: vec![] },
            "Cannot use reserved type name 'String' for struct",
        ),
        (
            Statement::Enum { name: "E".to_string(), variants: vec![] },
            "Enum 'E' must have at least one variant",
        ),
        (function("print", &[], vec![]), "Cannot redefine built-in function 'print'"),
        (function("f", &["a", "a"], vec![]), "Duplicate parameter 'a' in function 'f'"),
    ];
    for (statement, message) in cases {
        assert_eq!(semantic(transform(vec![statement]).unwrap_err()), message);
    }
}

#[test]
fn type_errors_are_reported() {
    let mismatch = Statement::Print {
        expression: Expression::Binary {
            left: Box::new(num(1.0)),
            operator: BinaryOperator::Add,
            right: Box::new(text("a")),
        },
    };
    assert_eq!(semantic(transform(vec![mismatch]).unwrap_err()), "Type mismatch in binary operation: Number Add String");
    let not_number =
        Statement::Print { expression: Expression::Unary { operator: UnaryOperator::Not, operand: Box::new(num(1.0)) } };
    assert_eq!(semantic(transform(vec![not_number]).unwrap_err()), "Type mismatch in unary operation: Not Number");
    let non_struct = function(
        "main",
        &[],
        vec![
            Statement::Assignment { mutable: false, identifier: "x".to_string(), value: num(1.0) },
            Statement::Print {
                expression: Expression::FieldAccess { object: Box::new(ident("x")), field: "y".to_string() },
            },
        ],
    );
    assert_eq!(semantic(transform(vec![non_struct]).unwrap_err()), "Cannot access field 'y' on non-struct type Number");
    let mut missing_field = point_program();
    if let Statement::Function { body, .. } = &mut missing_field[2] {
        body[1] = Statement::Print {
            expression: Expression::FieldAccess { object: Box::new(ident("p")), field: "z".to_string() },
        };
    }
    assert_eq!(semantic(transform(missing_field).unwrap_err()), "Field 'z' not found in struct 'Point'");
    let unknown_struct = Statement::Print {
        expression: Expression::FieldAccess {
            object: Box::new(Expression::StructInstantiation { struct_name: "Q".to_string(), fields: vec![] }),
            field: "a".to_string(),
        },
    };
    assert_eq!(semantic(transform(vec![unknown_struct]).unwrap_err()), "Struct 'Q' not found");
}

#[test]
fn names_and_returns() {
    let unknown = function("main", &[], vec![Statement::Expression {
        expression: Expression::Call { function: "foo".to_string(), arguments: vec![] },
    }]);
    assert_eq!(semantic(transform(vec![unknown]).unwrap_err()), "Symbol 'foo' not found");
    let inconsistent = function(
        "main",
        &[],
        vec![Statement::Return { value: Some(num(1.0)) }, Statement::Return { value: Some(text("a")) }],
    );
    assert_eq!(semantic(transform(vec![inconsistent]).unwrap_err()), "Inconsistent return types in function");
    let twice = function(
        "main",
        &[],
        vec![
            Statement::Assignment { mutable: false, identifier: "x".to_string(), value: num(1.0) },
            Statement::Assignment { mutable: true, identifier: "x".to_string(), value: num(2.0) },
        ],
    );
    assert_eq!(semantic(transform(vec![twice]).unwrap_err()), "Symbol 'x' already defined in current scope");
}

#[test]
fn parameters_stay_unresolved() {
    let program = transform(vec![
        function("id", &["a"], vec![Statement::Return { value: Some(ident("a")) }]),
        function("main", &[], vec![Statement::Expression {
            expression: Expression::Call { function: "id".to_string(), arguments: vec![num(1.0)] },
        }]),
    ])
    .unwrap();
    let e = program.validate_invariants().unwrap_err();
    assert_eq!(e.message, "Parameter 'a' has unresolved type");
    assert_eq!(e.location.as_deref(), Some("function:id:param:a"));
    match &program.items[0] {
        HirItem::Function(f) => assert!(matches!(f.return_type, HirType::Unit)),
        other => panic!("unexpected item {:?}", other),
    }
}

#[test]
fn globals_take_their_initializer_type() {
    let program = transform(vec![
        Statement::Assignment { mutable: true, identifier: "g".to_string(), value: text("v") },
        function("main", &[], vec![]),
    ])
    .unwrap();
    match &program.items[0] {
        HirItem::Global(g) => {
            assert!(matches!(g.global_type, HirType::String));
            assert!(g.is_mutable);
        },
        other => panic!("unexpected item {:?}", other),
    }
    let report = program.generate_hir_report().unwrap();
    assert!(report.contains("Global: g (ID: 4)\n  Type: String\n  Mutable: true\n  Has Initializer: true\n\n"));
}

#[test]
fn type_debug_text_matches_debug() {
    let t = HirType::Function {
        params: vec![HirType::Number, HirType::Struct("P\"q".to_string())],
        return_type: Box::new(HirType::Range(Box::new(HirType::Infer(3)))),
    };
    assert_eq!(t.debug_text(), format!("{:?}", t));
    let e = HirType::Enum("E".to_string());
    assert_eq!(e.debug_text(), format!("{:?}", e));
    let empty = HirType::Function { params: vec![], return_type: Box::new(HirType::Error) };
    assert_eq!(empty.debug_text(), "Function { params: [], return_type: Error }");
    assert!(t.same_as(&t.duplicate()));
    assert!(!t.same_as(&empty));
}
