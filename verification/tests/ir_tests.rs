use oviec::ast::{AstNode, Expression, Literal, Statement};
use oviec::error::OvieError;
use oviec::ir::{BasicBlock, Constant, Function, IrBuilder, IrType, Opcode, Program, Terminator, Value};
use std::collections::HashMap;

fn ir_message(e: OvieError) -> String {
    match e {
        OvieError::IrError { message } => message,
        other => panic!("unexpected error {:?}", other),
    }
}

#[test]
fn ir_generation_for_print() {
    let ast = AstNode::new(vec![Statement::Print {
        expression: Expression::Literal(Literal::String("Hello, World!".to_string())),
    }]);
    let mut builder = IrBuilder::new();
    builder.transform_ast(&ast).unwrap();
    let ir = builder.build();

    assert!(ir.entry_point.is_some());
    assert!(!ir.functions.is_empty());
    let entry_function = ir.functions.get(&ir.entry_point.unwrap()).unwrap();
    assert_eq!(entry_function.name, "main");
    assert!(!entry_function.basic_blocks.is_empty());
    let entry_block = entry_function.basic_blocks.get(&entry_function.entry_block).unwrap();
    assert!(!entry_block.instructions.is_empty());
    let print_instruction = &entry_block.instructions[0];
    assert!(matches!(print_instruction.opcode, Opcode::Print));
    assert!(matches!(&print_instruction.operands[0], Value::Constant(Constant::String(s)) if s == "Hello, World!"));
    assert!(ir.validate().is_ok());
}

#[test]
fn only_print_statements_become_instructions() {
    let ast = AstNode::new(vec![
        Statement::Assignment {
            mutable: false,
            identifier: "x".to_string(),
            value: Expression::Literal(Literal::Boolean(true)),
        },
        Statement::Print { expression: Expression::Literal(Literal::Number(5.0f64.to_bits())) },
        Statement::Return { value: None },
        Statement::Print { expression: Expression::Identifier("x".to_string()) },
    ]);
    let mut builder = IrBuilder::new();
    builder.transform_ast(&ast).unwrap();
    let ir = builder.build();
    let main = ir.functions.get(&1).unwrap();
    assert_eq!(main.entry_block, 1);
    let block = main.basic_blocks.get(&1).unwrap();
    assert_eq!(block.label, "entry");
    assert_eq!(block.instructions.len(), 2);
    assert_eq!(block.instructions[0].id, 1);
    assert_eq!(block.instructions[1].id, 2);
    assert!(matches!(block.instructions[0].operands[0], Value::Constant(Constant::Number(n)) if f64::from_bits(n) == 5.0));
    assert!(matches!(block.instructions[1].operands[0], Value::Constant(Constant::Void)));
    assert!(matches!(block.terminator, Terminator::Return { value: None }));
}

#[test]
fn create_function_numbers_ids() {
    let mut builder = IrBuilder::new();
    let a = builder.create_function("a", vec![], IrType::Void);
    let b = builder.create_function("b", vec![], IrType::Number);
    assert_eq!((a, b), (1, 2));
    builder.set_entry_point(b);
    builder.set_deterministic_mode(true);
    let p = builder.build();
    assert_eq!(p.entry_point, Some(2));
    assert_eq!(p.functions.get(&2).unwrap().entry_block, 2);
    assert_eq!(p.functions.get(&1).unwrap().name, "a");
    assert!(p.validate().is_ok());
}

#[test]
fn validate_reports_problems() {
    let mut p = Program::new();
    assert!(p.validate().is_ok());
    assert_eq!(p.metadata.target_triple, "unknown");
    p.entry_point = Some(9);
    assert_eq!(ir_message(p.validate().unwrap_err()), "Entry point function not found");

    let mut p = Program::new();
    p.functions.insert(
        3,
        Function {
            id: 4,
            name: "f".to_string(),
            parameters: vec![],
            return_type: IrType::Void,
            basic_blocks: HashMap::new(),
            entry_block: 1,
            local_variables: HashMap::new(),
        },
    );
    assert_eq!(ir_message(p.validate().unwrap_err()), "Function ID mismatch: 4 != 3");

    let mut p = Program::new();
    let mut blocks = HashMap::new();
    blocks.insert(
        2,
        BasicBlock { id: 2, label: "other".to_string(), instructions: vec![], terminator: Terminator::Return { value: None } },
    );
    p.functions.insert(
        3,
        Function {
            id: 3,
            name: "g".to_string(),
            parameters: vec![],
            return_type: IrType::Void,
            basic_blocks: blocks,
            entry_block: 1,
            local_variables: HashMap::new(),
        },
    );
    assert_eq!(ir_message(p.validate().unwrap_err()), "Entry block 1 not found in function g");
}
