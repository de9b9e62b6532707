use oviec::ast::{AstNode, Expression, Literal, Statement};
use oviec::error::OvieError;
use oviec::ir::{BasicBlock, Constant, Function, Instruction, IrBuilder, IrType, Opcode, Program, Terminator, Value};
use oviec::ir_machine::{FloatOp, IrAction, IrInterpreter, RuntimeValue};
use std::collections::HashMap;

fn runtime_message(e: OvieError) -> String {
    match e {
        OvieError::RuntimeError { message } => message,
        other => panic!("unexpected error {:?}", other),
    }
}

/// Run a program to its end, doing the floating-point steps here; the
/// printed values are collected.
fn run(program: &Program) -> Result<Vec<String>, OvieError> {
    let mut machine = IrInterpreter::new();
    machine.start(program)?;
    let mut printed = Vec::new();
    let mut steps = 0;
    while machine.is_running() {
        steps += 1;
        assert!(steps < 1000, "program does not stop");
        match machine.step(program)? {
            IrAction::Continue => {}
            IrAction::Print(v) => printed.push(match v {
                RuntimeValue::Text(s) => s,
                RuntimeValue::Number(bits) => format!("{}", f64::from_bits(bits)),
                RuntimeValue::Boolean(b) => b.to_string(),
                RuntimeValue::Null => "null".to_string(),
            }),
            IrAction::Arithmetic { op, left, right } => {
                let (a, b) = (f64::from_bits(left), f64::from_bits(right));
                let r = match op {
                    FloatOp::Add => a + b,
                    FloatOp::Sub => a - b,
                    FloatOp::Mul => a * b,
                    FloatOp::Div => a / b,
                };
                machine.resume(r.to_bits());
            }
        }
    }
    Ok(printed)
}

fn text(s: &str) -> Value {
    Value::Constant(Constant::String(s.to_string()))
}

fn number(n: f64) -> Value {
    Value::Constant(Constant::Number(n.to_bits()))
}

fn instruction(id: u32, opcode: Opcode, operands: Vec<Value>) -> Instruction {
    Instruction { id, opcode, operands, result_type: IrType::Void }
}

fn block(id: u32, instructions: Vec<Instruction>, terminator: Terminator) -> BasicBlock {
    BasicBlock { id, label: format!("b{}", id), instructions, terminator }
}

fn program(blocks: Vec<BasicBlock>) -> Program {
    let mut basic_blocks = HashMap::new();
    for b in blocks {
        basic_blocks.insert(b.id, b);
    }
    let f = Function {
        id: 1,
        name: "main".to_string(),
        parameters: vec![],
        return_type: IrType::Void,
        basic_blocks,
        entry_block: 1,
        local_variables: HashMap::new(),
    };
    let mut p = Program::new();
    p.functions.insert(1, f);
    p.entry_point = Some(1);
    p
}

#[test]
fn prints_of_a_built_program_run_in_order() {
    let ast = AstNode::new(vec![
        Statement::Print { expression: Expression::Literal(Literal::String("Hello from IR!".to_string())) },
        Statement::Print { expression: Expression::Literal(Literal::Boolean(true)) },
    ]);
    let mut builder = IrBuilder::new();
    builder.transform_ast(&ast).unwrap();
    let ir = builder.build();
    assert_eq!(run(&ir).unwrap(), vec!["Hello from IR!", "true"]);
}

#[test]
fn arithmetic_and_joining() {
    let p = program(vec![block(
        1,
        vec![
            instruction(1, Opcode::Add, vec![number(2.0), number(3.5)]),
            instruction(2, Opcode::Mul, vec![Value::Instruction(1), number(2.0)]),
            instruction(3, Opcode::Print, vec![Value::Instruction(2)]),
            instruction(4, Opcode::Add, vec![text("ab"), text("cd")]),
            instruction(5, Opcode::Print, vec![Value::Instruction(4)]),
        ],
        Terminator::Return { value: None },
    )]);
    assert_eq!(run(&p).unwrap(), vec!["11", "abcd"]);
}

#[test]
fn branches_follow_the_condition() {
    let p = program(vec![
        block(1, vec![instruction(1, Opcode::Sub, vec![number(1.0), number(1.0)])], Terminator::ConditionalBranch {
            condition: Value::Instruction(1),
            true_target: 2,
            false_target: 3,
        }),
        block(2, vec![instruction(2, Opcode::Print, vec![text("nonzero")])], Terminator::Return { value: None }),
        block(3, vec![instruction(3, Opcode::Print, vec![text("zero")])], Terminator::Branch { target: 4 }),
        block(4, vec![instruction(4, Opcode::Print, vec![text("done")])], Terminator::Return { value: None }),
    ]);
    assert_eq!(run(&p).unwrap(), vec!["zero", "done"]);
}

#[test]
fn runtime_errors() {
    let no_entry = Program::new();
    assert_eq!(runtime_message(IrInterpreter::new().start(&no_entry).unwrap_err()), "No entry point found");

    let mut missing = Program::new();
    missing.entry_point = Some(9);
    assert_eq!(runtime_message(IrInterpreter::new().start(&missing).unwrap_err()), "Entry function not found");

    let cases = vec![
        (vec![instruction(1, Opcode::Div, vec![number(1.0), number(-0.0)])], "Division by zero"),
        (vec![instruction(1, Opcode::Sub, vec![text("a"), text("b")])], "Cannot subtract these types"),
        (vec![instruction(1, Opcode::Add, vec![text("a"), number(1.0)])], "Cannot add these types"),
        (vec![instruction(1, Opcode::Print, vec![Value::Instruction(7)])], "Value 7 not found"),
        (vec![instruction(1, Opcode::Print, vec![Value::Global("g".to_string())])], "Global variable 'g' not found"),
    ];
    for (instructions, expected) in cases {
        let p = program(vec![block(1, instructions, Terminator::Return { value: None })]);
        assert_eq!(runtime_message(run(&p).unwrap_err()), expected);
    }

    let p = program(vec![block(1, vec![], Terminator::Unreachable)]);
    assert_eq!(runtime_message(run(&p).unwrap_err()), "Reached unreachable code");

    let p = program(vec![block(1, vec![], Terminator::Branch { target: 5 })]);
    assert_eq!(runtime_message(run(&p).unwrap_err()), "Block not found");
}

#[test]
fn a_stopped_machine_reports_no_function() {
    let p = program(vec![block(1, vec![], Terminator::Return { value: None })]);
    let mut machine = IrInterpreter::new();
    machine.start(&p).unwrap();
    assert!(matches!(machine.step(&p).unwrap(), IrAction::Continue));
    assert!(!machine.is_running());
    assert_eq!(runtime_message(machine.step(&p).unwrap_err()), "No current function");
}
