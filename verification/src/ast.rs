//! Abstract syntax tree of Ovie programs.

use vstd::prelude::*;
use crate::text::{append, owned};

verus! {

/// Invariant error for AST validation.
#[derive(Debug, Clone)]
pub struct InvariantError {
    pub message: String,
    pub location: Option<String>,
}

/// The text of an invariant error.
pub open spec fn invariant_error_text(message: Seq<char>, location: Option<Seq<char>>) -> Seq<char> {
    match location {
        Some(l) => "AST Invariant Violation at "@ + l + ": "@ + message,
        None => "AST Invariant Violation: "@ + message,
    }
}

impl InvariantError {
    /// The error as text.
    pub fn display(&self) -> (r: String)
        ensures
            r@ == invariant_error_text(
                self.message@,
                match self.location {
                    Some(l) => Some(l@),
                    None => None,
                },
            ),
    {
        match &self.location {
            Some(l) => {
                let mut out = owned("AST Invariant Violation at ");
                append(&mut out, l.as_str());
                append(&mut out, ": ");
                append(&mut out, self.message.as_str());
                out
            },
            None => {
                let mut out = owned("AST Invariant Violation: ");
                append(&mut out, self.message.as_str());
                out
            },
        }
    }
}

/// Binary operators.
#[derive(Debug, Clone, Copy, PartialEq, Eq, Structural)]
pub enum BinaryOperator {
    Add,
    Subtract,
    Multiply,
    Divide,
    Modulo,
    Equal,
    NotEqual,
    Less,
    LessEqual,
    Greater,
    GreaterEqual,
    And,
    Or,
}

/// The symbol of a binary operator.
pub open spec fn binary_symbol(op: BinaryOperator) -> Seq<char> {
    match op {
        BinaryOperator::Add => "+"@,
        BinaryOperator::Subtract => "-"@,
        BinaryOperator::Multiply => "*"@,
        BinaryOperator::Divide => "/"@,
        BinaryOperator::Modulo => "%"@,
        BinaryOperator::Equal => "=="@,
        BinaryOperator::NotEqual => "!="@,
        BinaryOperator::Less => "<"@,
        BinaryOperator::LessEqual => "<="@,
        BinaryOperator::Greater => ">"@,
        BinaryOperator::GreaterEqual => ">="@,
        BinaryOperator::And => "&&"@,
        BinaryOperator::Or => "||"@,
    }
}

impl BinaryOperator {
    /// The symbol of this operator, as its display gives it.
    pub fn symbol(&self) -> (r: &'static str)
        ensures
            r@ == binary_symbol(*self),
    {
        match self {
            BinaryOperator::Add => "+",
            BinaryOperator::Subtract => "-",
            BinaryOperator::Multiply => "*",
            BinaryOperator::Divide => "/",
            BinaryOperator::Modulo => "%",
            BinaryOperator::Equal => "==",
            BinaryOperator::NotEqual => "!=",
            BinaryOperator::Less => "<",
            BinaryOperator::LessEqual => "<=",
            BinaryOperator::Greater => ">",
            BinaryOperator::GreaterEqual => ">=",
            BinaryOperator::And => "&&",
            BinaryOperator::Or => "||",
        }
    }
}

/// Unary operators.
#[derive(Debug, Clone, Copy, PartialEq, Eq, Structural)]
pub enum UnaryOperator {
    Not,
    Negate,
}

impl UnaryOperator {
    /// The symbol of this operator, as its display gives it.
    pub fn symbol(&self) -> (r: &'static str)
        ensures
            r@ == match *self {
                UnaryOperator::Not => "!"@,
                UnaryOperator::Negate => "-"@,
            },
    {
        match self {
            UnaryOperator::Not => "!",
            UnaryOperator::Negate => "-",
        }
    }
}

/// Literal values. A number is kept as the bits of its IEEE 754 double.
#[derive(Debug, Clone)]
pub enum Literal {
    String(String),
    Number(u64),
    Boolean(bool),
}

/// Struct field definition.
#[derive(Debug, Clone)]
pub struct StructField {
    pub name: String,
    pub type_annotation: String,
}

/// Enum variant definition.
#[derive(Debug, Clone)]
pub struct EnumVariant {
    pub name: String,
    pub data_type: Option<String>,
}

/// Field initializer for struct instantiation.
#[derive(Debug)]
pub struct FieldInitializer {
    pub name: String,
    pub value: Expression,
}

/// Expressions.
#[derive(Debug)]
pub enum Expression {
    /// Literal values
    Literal(Literal),
    /// Variable reference
    Identifier(String),
    /// Binary operations: left op right
    Binary { left: Box<Expression>, operator: BinaryOperator, right: Box<Expression> },
    /// Unary operations: op expression
    Unary { operator: UnaryOperator, operand: Box<Expression> },
    /// Function call: identifier(args)
    Call { function: String, arguments: Vec<Expression> },
    /// Field access: expression.field
    FieldAccess { object: Box<Expression>, field: String },
    /// Struct instantiation: StructName { field: value, ... }
    StructInstantiation { struct_name: String, fields: Vec<FieldInitializer> },
    /// Range expression: start..end
    Range { start: Box<Expression>, end: Box<Expression> },
}

/// Statements.
#[derive(Debug)]
pub enum Statement {
    /// Variable assignment: [mut] identifier = expression
    Assignment { mutable: bool, identifier: String, value: Expression },
    /// Function definition: fn identifier(params) { body }
    Function { name: String, parameters: Vec<String>, body: Vec<Statement> },
    /// Print statement: seeAm expression
    Print { expression: Expression },
    /// If statement: if condition { then_block } [else { else_block }]
    If { condition: Expression, then_block: Vec<Statement>, else_block: Option<Vec<Statement>> },
    /// While loop: while condition { body }
    While { condition: Expression, body: Vec<Statement> },
    /// For loop: for identifier in expression { body }
    For { identifier: String, iterable: Expression, body: Vec<Statement> },
    /// Return statement: return [expression]
    Return { value: Option<Expression> },
    /// Expression statement: expression;
    Expression { expression: Expression },
    /// Struct definition: struct Name { fields }
    Struct { name: String, fields: Vec<StructField> },
    /// Enum definition: enum Name { variants }
    Enum { name: String, variants: Vec<EnumVariant> },
}

/// Root AST node representing a complete Ovie program.
#[derive(Debug)]
pub struct AstNode {
    pub statements: Vec<Statement>,
}

impl AstNode {
    /// A program of the given statements.
    pub fn new(statements: Vec<Statement>) -> (r: Self)
        ensures
            r.statements == statements,
    {
        AstNode { statements }
    }

    /// Validate the AST invariants: identifiers are unresolved names and
    /// no types are attached, which holds of every tree that this type can
    /// hold; the whole tree is walked and found valid.
    pub fn validate(&self) -> (r: Result<(), InvariantError>)
        ensures
            r is Ok,
    {
        validate_statements(&self.statements)
    }
}

fn validate_statements(statements: &Vec<Statement>) -> (r: Result<(), InvariantError>)
    ensures
        r is Ok,
    decreases statements, 1nat,
{
    let mut i: usize = 0;
    while i < statements.len()
        invariant
            i <= statements@.len(),
        decreases statements@.len() - i,
    {
        proof {
            assert(decreases_to!(statements => statements@));
            assert(decreases_to!(statements@ => statements@[i as int]));
        }
        let _ = validate_statement(&statements[i]);
        i = i + 1;
    }
    Ok(())
}

fn validate_statement(statement: &Statement) -> (r: Result<(), InvariantError>)
    ensures
        r is Ok,
    decreases statement, 0nat,
{
    match statement {
        Statement::Assignment { value, .. } => validate_expression(value),
        Statement::Function { body, .. } => validate_statements(body),
        Statement::Print { expression } => validate_expression(expression),
        Statement::If { condition, then_block, else_block } => {
            let _ = validate_expression(condition);
            let _ = validate_statements(then_block);
            match else_block {
                Some(e) => validate_statements(e),
                None => Ok(()),
            }
        },
        Statement::While { condition, body } => {
            let _ = validate_expression(condition);
            validate_statements(body)
        },
        Statement::For { iterable, body, .. } => {
            let _ = validate_expression(iterable);
            validate_statements(body)
        },
        Statement::Return { value } => match value {
            Some(e) => validate_expression(e),
            None => Ok(()),
        },
        Statement::Expression { expression } => validate_expression(expression),
        Statement::Struct { .. } => Ok(()),
        Statement::Enum { .. } => Ok(()),
    }
}

#[verifier::loop_isolation(false)]
fn validate_expression(expression: &Expression) -> (r: Result<(), InvariantError>)
    ensures
        r is Ok,
    decreases expression,
{
    match expression {
        Expression::Literal(_) => Ok(()),
        Expression::Identifier(_) => Ok(()),
        Expression::Binary { left, right, .. } => {
            let _ = validate_expression(left);
            validate_expression(right)
        },
        Expression::Unary { operand, .. } => validate_expression(operand),
        Expression::Call { arguments, .. } => {
            let mut i: usize = 0;
            while i < arguments.len()
                invariant
                    i <= arguments@.len(),
                decreases arguments@.len() - i,
            {
                proof {
                    assert(decreases_to!(arguments => arguments@));
                    assert(decreases_to!(arguments@ => arguments@[i as int]));
                }
                let _ = validate_expression(&arguments[i]);
                i = i + 1;
            }
            Ok(())
        },
        Expression::FieldAccess { object, .. } => validate_expression(object),
        Expression::StructInstantiation { fields, .. } => {
            let mut i: usize = 0;
            while i < fields.len()
                invariant
                    i <= fields@.len(),
                decreases fields@.len() - i,
            {
                proof {
                    assert(decreases_to!(fields => fields@));
                    assert(decreases_to!(fields@ => fields@[i as int]));
                    assert(decreases_to!(fields@[i as int] => fields@[i as int].value));
                }
                let _ = validate_expression(&fields[i].value);
                i = i + 1;
            }
            Ok(())
        },
        Expression::Range { start, end } => {
            let _ = validate_expression(start);
            validate_expression(end)
        },
    }
}

} // verus!
