//! Lowering of the AST into the HIR: name resolution through the symbol
//! table, type definitions, type checking of operators, and the program
//! checks that follow.

use vstd::prelude::*;
use crate::ast::{AstNode, BinaryOperator, EnumVariant, Expression, FieldInitializer, Literal, Statement, StructField, UnaryOperator};
use crate::error::{ErrorView, OvieError, OvieResult};
use crate::hir::{
    assoc_get, assoc_index_from, assoc_put, duplicate_symbol_error, entered, exited, find_symbol, inserted, HirParameter, resolve, type_debug, HirBinaryOp, HirType,
    HirEnum, HirField, HirStruct, HirUnaryOp, HirVariant, NodeId, ScopeView, SourceSpan, SymbolInfo, SymbolInfoView, SymbolTable, SymbolTableView, TypeInfo,
    TypeInfoView, TypeTable, TypeView,
};
use crate::hir_tree::{
    fields_view, function_view, items_view, opt_expr_view, HirItem, HirProgram, ItemView, MetadataView, ProgramView, variants_view, BlockView, FunctionView, GlobalView, HirFunction, HirGlobal, ExprKindView, ExprView, FieldInitView, HirBlock, MemberView, TypeDefView, HirExpression, HirExpressionKind, HirFieldInit,
    HirLiteral, HirStatement, HirStatementKind, LiteralView, StmtKindView, StmtView,
};
use crate::text::{append, owned};
use crate::build_config::{compiler_version, compiler_version_text};
use crate::hir::HirMetadata;
use crate::hir_checks::has_main_item;

verus! {

/// The state of a HIR builder as plain values: the next node id, the
/// symbol table, the type definitions, the errors recorded and the number
/// of warnings.
pub struct BuilderView {
    pub next_id: u32,
    pub symbols: SymbolTableView,
    pub types: Seq<(Seq<char>, TypeInfoView)>,
    pub errors: Seq<ErrorView>,
    pub warnings: nat,
}

/// HIR builder: transforms an AST into HIR.
#[derive(Debug)]
pub struct HirBuilder {
    next_node_id: NodeId,
    symbol_table: SymbolTable,
    type_table: TypeTable,
    errors: Vec<OvieError>,
    warnings: Vec<OvieError>,
}

impl View for HirBuilder {
    type V = BuilderView;

    closed spec fn view(&self) -> BuilderView {
        BuilderView {
            next_id: self.next_node_id,
            symbols: self.symbol_table@,
            types: self.type_table@,
            errors: self.errors@.map_values(|e: OvieError| e@),
            warnings: self.warnings@.len(),
        }
    }
}

/// A semantic error, which is reported at line 1, column 1.
pub open spec fn semantic(message: Seq<char>) -> ErrorView {
    ErrorView::SemanticError(1, 1, message)
}

/// The state after taking a node id.
pub open spec fn fresh(b: BuilderView) -> BuilderView {
    BuilderView { next_id: (b.next_id + 1) as u32, ..b }
}

/// The default span.
pub open spec fn no_span() -> SourceSpan {
    SourceSpan { start: 0, end: 0, line: 1, column: 1 }
}

/// The HIR operator of an AST binary operator.
pub open spec fn binary_op(op: BinaryOperator) -> HirBinaryOp {
    match op {
        BinaryOperator::Add => HirBinaryOp::Add,
        BinaryOperator::Subtract => HirBinaryOp::Sub,
        BinaryOperator::Multiply => HirBinaryOp::Mul,
        BinaryOperator::Divide => HirBinaryOp::Div,
        BinaryOperator::Modulo => HirBinaryOp::Mod,
        BinaryOperator::Equal => HirBinaryOp::Eq,
        BinaryOperator::NotEqual => HirBinaryOp::Ne,
        BinaryOperator::Less => HirBinaryOp::Lt,
        BinaryOperator::LessEqual => HirBinaryOp::Le,
        BinaryOperator::Greater => HirBinaryOp::Gt,
        BinaryOperator::GreaterEqual => HirBinaryOp::Ge,
        BinaryOperator::And => HirBinaryOp::And,
        BinaryOperator::Or => HirBinaryOp::Or,
    }
}

/// The HIR operator of an AST unary operator.
pub open spec fn unary_op(op: UnaryOperator) -> HirUnaryOp {
    match op {
        UnaryOperator::Not => HirUnaryOp::Not,
        UnaryOperator::Negate => HirUnaryOp::Neg,
    }
}

/// The `Debug` text of a binary operator.
pub open spec fn binary_op_debug(op: HirBinaryOp) -> Seq<char> {
    match op {
        HirBinaryOp::Add => "Add"@,
        HirBinaryOp::Sub => "Sub"@,
        HirBinaryOp::Mul => "Mul"@,
        HirBinaryOp::Div => "Div"@,
        HirBinaryOp::Mod => "Mod"@,
        HirBinaryOp::Eq => "Eq"@,
        HirBinaryOp::Ne => "Ne"@,
        HirBinaryOp::Lt => "Lt"@,
        HirBinaryOp::Le => "Le"@,
        HirBinaryOp::Gt => "Gt"@,
        HirBinaryOp::Ge => "Ge"@,
        HirBinaryOp::And => "And"@,
        HirBinaryOp::Or => "Or"@,
    }
}

/// The `Debug` text of a unary operator.
pub open spec fn unary_op_debug(op: HirUnaryOp) -> Seq<char> {
    match op {
        HirUnaryOp::Not => "Not"@,
        HirUnaryOp::Neg => "Neg"@,
    }
}

/// The type of a binary operation: numbers compute and compare, strings
/// concatenate, equal types compare for equality, booleans combine;
/// anything else is a type mismatch.
pub open spec fn binary_type(l: TypeView, op: HirBinaryOp, r: TypeView) -> Result<TypeView, ErrorView> {
    if l == TypeView::Number && r == TypeView::Number && (op == HirBinaryOp::Add || op == HirBinaryOp::Sub || op
        == HirBinaryOp::Mul || op == HirBinaryOp::Div || op == HirBinaryOp::Mod) {
        Ok(TypeView::Number)
    } else if l == TypeView::String && r == TypeView::String && op == HirBinaryOp::Add {
        Ok(TypeView::String)
    } else if l == TypeView::Number && r == TypeView::Number && (op == HirBinaryOp::Lt || op == HirBinaryOp::Le
        || op == HirBinaryOp::Gt || op == HirBinaryOp::Ge) {
        Ok(TypeView::Boolean)
    } else if (op == HirBinaryOp::Eq || op == HirBinaryOp::Ne) && l == r {
        Ok(TypeView::Boolean)
    } else if l == TypeView::Boolean && r == TypeView::Boolean && (op == HirBinaryOp::And || op == HirBinaryOp::Or) {
        Ok(TypeView::Boolean)
    } else {
        Err(
            semantic(
                "Type mismatch in binary operation: "@ + type_debug(l) + " "@ + binary_op_debug(op) + " "@
                    + type_debug(r),
            ),
        )
    }
}

/// The type of a unary operation: `!` on a boolean, `-` on a number.
pub open spec fn unary_type(op: HirUnaryOp, t: TypeView) -> Result<TypeView, ErrorView> {
    if op == HirUnaryOp::Not && t == TypeView::Boolean {
        Ok(TypeView::Boolean)
    } else if op == HirUnaryOp::Neg && t == TypeView::Number {
        Ok(TypeView::Number)
    } else {
        Err(semantic("Type mismatch in unary operation: "@ + unary_op_debug(op) + " "@ + type_debug(t)))
    }
}

/// Whether a type name is built in.
pub open spec fn builtin_type(name: Seq<char>) -> Option<TypeView> {
    if name == "String"@ {
        Some(TypeView::String)
    } else if name == "Number"@ {
        Some(TypeView::Number)
    } else if name == "Boolean"@ {
        Some(TypeView::Boolean)
    } else if name == "Unit"@ {
        Some(TypeView::Unit)
    } else {
        None
    }
}

/// The type a name denotes: a built-in type, or a defined type (as a
/// struct type).
pub open spec fn resolve_type(types: Seq<(Seq<char>, TypeInfoView)>, name: Seq<char>) -> Result<TypeView, ErrorView> {
    match builtin_type(name) {
        Some(t) => Ok(t),
        None => if assoc_index_from(types, name, 0) is Some {
            Ok(TypeView::Struct(name))
        } else {
            Err(semantic("Unknown type: "@ + name))
        },
    }
}

/// The type of field `field` of a value of type `t`.
pub open spec fn field_type(types: Seq<(Seq<char>, TypeInfoView)>, t: TypeView, field: Seq<char>) -> Result<
    TypeView,
    ErrorView,
> {
    match t {
        TypeView::Struct(name) => match assoc_get(types, name) {
            Some(TypeInfoView::Struct(fields)) => match assoc_get(fields, field) {
                Some(ft) => Ok(ft),
                None => Err(semantic("Field '"@ + field + "' not found in struct '"@ + name + "'"@)),
            },
            _ => Err(semantic("Struct '"@ + name + "' not found"@)),
        },
        _ => Err(semantic("Cannot access field '"@ + field + "' on non-struct type "@ + type_debug(t))),
    }
}


/// The symbol table a builder starts with: the outermost scope holding
/// the built-in functions `print` (from a string to unit) and `to_string`
/// (from a number to a string).
pub open spec fn builtin_symbols() -> SymbolTableView {
    let t0 = SymbolTableView { scopes: seq![ScopeView { symbols: seq![], parent: None }], current: 0 };
    let t1 = inserted(
        t0,
        "print"@,
        SymbolInfoView {
            symbol_type: TypeView::Function(seq![TypeView::String], Box::new(TypeView::Unit)),
            is_mutable: false,
            is_function: true,
            span: no_span(),
        },
    );
    inserted(
        t1,
        "to_string"@,
        SymbolInfoView {
            symbol_type: TypeView::Function(seq![TypeView::Number], Box::new(TypeView::String)),
            is_mutable: false,
            is_function: true,
            span: no_span(),
        },
    )
}

/// The state of a new builder.
pub open spec fn initial_builder() -> BuilderView {
    BuilderView { next_id: 1, symbols: builtin_symbols(), types: seq![], errors: seq![], warnings: 0 }
}

/// The plain value of an AST literal.
pub open spec fn literal_of(l: Literal) -> (LiteralView, TypeView) {
    match l {
        Literal::String(s) => (LiteralView::String(s@), TypeView::String),
        Literal::Number(n) => (LiteralView::Number(n), TypeView::Number),
        Literal::Boolean(b) => (LiteralView::Boolean(b), TypeView::Boolean),
    }
}

/// An expression node with the next id.
pub open spec fn node(b: BuilderView, kind: ExprKindView, ty: TypeView) -> ExprView {
    ExprView { id: b.next_id, kind, ty, span: no_span() }
}

/// Lowering an expression: the builder state after it and the HIR
/// expression, or the first error. Sub-expressions are lowered first,
/// left to right, and the node takes its id last.
pub open spec fn lower_expr(b: BuilderView, e: Expression) -> (BuilderView, Result<ExprView, ErrorView>)
    decreases e, 0nat,
{
    match e {
        Expression::Literal(l) => (fresh(b), Ok(node(b, ExprKindView::Literal(literal_of(l).0), literal_of(l).1))),
        Expression::Identifier(name) => match resolve(b.symbols.scopes, b.symbols.current as int, name@) {
            Some(info) => (fresh(b), Ok(node(b, ExprKindView::Variable(name@), info.symbol_type))),
            None => (b, Err(semantic("Symbol '"@ + name@ + "' not found"@))),
        },
        Expression::Binary { left, operator, right } => {
            let (b1, rl) = lower_expr(b, *left);
            match rl {
                Err(x) => (b1, Err(x)),
                Ok(l) => {
                    let (b2, rr) = lower_expr(b1, *right);
                    match rr {
                        Err(x) => (b2, Err(x)),
                        Ok(r) => match binary_type(l.ty, binary_op(operator), r.ty) {
                            Err(x) => (b2, Err(x)),
                            Ok(t) => (
                                fresh(b2),
                                Ok(node(b2, ExprKindView::Binary(Box::new(l), binary_op(operator), Box::new(r)), t)),
                            ),
                        },
                    }
                },
            }
        },
        Expression::Unary { operator, operand } => {
            let (b1, ro) = lower_expr(b, *operand);
            match ro {
                Err(x) => (b1, Err(x)),
                Ok(o) => match unary_type(unary_op(operator), o.ty) {
                    Err(x) => (b1, Err(x)),
                    Ok(t) => (fresh(b1), Ok(node(b1, ExprKindView::Unary(unary_op(operator), Box::new(o)), t))),
                },
            }
        },
        Expression::Call { function, arguments } => {
            proof {
                assert(decreases_to!(arguments => arguments@));
            }
            let (b1, ra) = lower_args(b, arguments@, 0, seq![]);
            match ra {
                Err(x) => (b1, Err(x)),
                Ok(args) => match resolve(b1.symbols.scopes, b1.symbols.current as int, function@) {
                    None => (b1, Err(semantic("Symbol '"@ + function@ + "' not found"@))),
                    Some(info) => match info.symbol_type {
                        TypeView::Function(_, ret) => (
                            fresh(b1),
                            Ok(node(b1, ExprKindView::Call(function@, args), *ret)),
                        ),
                        _ => (
                            fresh(fresh(b1)),
                            Ok(node(fresh(b1), ExprKindView::Call(function@, args), TypeView::Infer(b1.next_id))),
                        ),
                    },
                },
            }
        },
        Expression::FieldAccess { object, field } => {
            let (b1, ro) = lower_expr(b, *object);
            match ro {
                Err(x) => (b1, Err(x)),
                Ok(o) => match field_type(b1.types, o.ty, field@) {
                    Err(x) => (b1, Err(x)),
                    Ok(t) => (fresh(b1), Ok(node(b1, ExprKindView::FieldAccess(Box::new(o), field@), t))),
                },
            }
        },
        Expression::StructInstantiation { struct_name, fields } => {
            proof {
                assert(decreases_to!(fields => fields@));
            }
            let (b1, rf) = lower_inits(b, fields@, 0, seq![]);
            match rf {
                Err(x) => (b1, Err(x)),
                Ok(inits) => (
                    fresh(b1),
                    Ok(node(b1, ExprKindView::StructInit(struct_name@, inits), TypeView::Struct(struct_name@))),
                ),
            }
        },
        Expression::Range { start, end } => {
            let (b1, rs) = lower_expr(b, *start);
            match rs {
                Err(x) => (b1, Err(x)),
                Ok(st) => {
                    let (b2, re) = lower_expr(b1, *end);
                    match re {
                        Err(x) => (b2, Err(x)),
                        Ok(en) => (
                            fresh(b2),
                            Ok(
                                node(
                                    b2,
                                    ExprKindView::Range(Box::new(st), Box::new(en)),
                                    TypeView::Range(Box::new(st.ty)),
                                ),
                            ),
                        ),
                    }
                },
            }
        },
    }
}

/// Lowering the expressions `s[i..]`, after those already lowered into
/// `acc`.
pub open spec fn lower_args(b: BuilderView, s: Seq<Expression>, i: int, acc: Seq<ExprView>) -> (
    BuilderView,
    Result<Seq<ExprView>, ErrorView>,
)
    decreases s, s.len() - i,
{
    if i < 0 || i >= s.len() {
        (b, Ok(acc))
    } else {
        proof {
            assert(decreases_to!(s => s[i]));
        }
        let (b1, r) = lower_expr(b, s[i]);
        match r {
            Err(x) => (b1, Err(x)),
            Ok(v) => lower_args(b1, s, i + 1, acc.push(v)),
        }
    }
}

/// Lowering the field initializers `s[i..]`, after those already lowered
/// into `acc`.
pub open spec fn lower_inits(b: BuilderView, s: Seq<FieldInitializer>, i: int, acc: Seq<FieldInitView>) -> (
    BuilderView,
    Result<Seq<FieldInitView>, ErrorView>,
)
    decreases s, s.len() - i,
{
    if i < 0 || i >= s.len() {
        (b, Ok(acc))
    } else {
        proof {
            assert(decreases_to!(s => s[i]));
            assert(decreases_to!(s[i] => s[i].value));
        }
        let (b1, r) = lower_expr(b, s[i].value);
        match r {
            Err(x) => (b1, Err(x)),
            Ok(v) => lower_inits(b1, s, i + 1, acc.push(FieldInitView { name: s[i].name@, value: v, span: no_span() })),
        }
    }
}

/// The most node ids that lowering an expression takes.
pub open spec fn expr_cost(e: Expression) -> nat
    decreases e, 0nat,
{
    match e {
        Expression::Binary { left, right, .. } => 1 + expr_cost(*left) + expr_cost(*right),
        Expression::Unary { operand, .. } => 1 + expr_cost(*operand),
        Expression::Call { arguments, .. } => {
            proof {
                assert(decreases_to!(arguments => arguments@));
            }
            2 + args_cost(arguments@)
        },
        Expression::FieldAccess { object, .. } => 1 + expr_cost(*object),
        Expression::StructInstantiation { fields, .. } => {
            proof {
                assert(decreases_to!(fields => fields@));
            }
            1 + inits_cost(fields@)
        },
        Expression::Range { start, end } => 1 + expr_cost(*start) + expr_cost(*end),
        _ => 1,
    }
}

/// The most node ids that lowering expressions takes.
pub open spec fn args_cost(s: Seq<Expression>) -> nat
    decreases s, s.len(),
{
    if s.len() == 0 {
        0
    } else {
        proof {
            assert(decreases_to!(s => s[s.len() - 1]));
        }
        args_cost(s.drop_last()) + expr_cost(s[s.len() - 1])
    }
}

/// The most node ids that lowering field initializers takes.
pub open spec fn inits_cost(s: Seq<FieldInitializer>) -> nat
    decreases s, s.len(),
{
    if s.len() == 0 {
        0
    } else {
        proof {
            assert(decreases_to!(s => s[s.len() - 1]));
            assert(decreases_to!(s[s.len() - 1] => s[s.len() - 1].value));
        }
        inits_cost(s.drop_last()) + expr_cost(s[s.len() - 1].value)
    }
}

proof fn lemma_args_cost_prefix(s: Seq<Expression>, n: int)
    requires
        0 <= n <= s.len(),
    ensures
        args_cost(s.take(n)) <= args_cost(s),
        n < s.len() ==> args_cost(s.take(n + 1)) == args_cost(s.take(n)) + expr_cost(s[n]),
    decreases s.len(),
{
    if n < s.len() {
        assert(s.take(n + 1).drop_last() =~= s.take(n));
        assert(s.drop_last().take(n) =~= s.take(n));
        lemma_args_cost_prefix(s.drop_last(), n);
    } else {
        assert(s.take(n) =~= s);
    }
}

proof fn lemma_inits_cost_prefix(s: Seq<FieldInitializer>, n: int)
    requires
        0 <= n <= s.len(),
    ensures
        inits_cost(s.take(n)) <= inits_cost(s),
        n < s.len() ==> inits_cost(s.take(n + 1)) == inits_cost(s.take(n)) + expr_cost(s[n].value),
    decreases s.len(),
{
    if n < s.len() {
        assert(s.take(n + 1).drop_last() =~= s.take(n));
        assert(s.drop_last().take(n) =~= s.take(n));
        lemma_inits_cost_prefix(s.drop_last(), n);
    } else {
        assert(s.take(n) =~= s);
    }
}



/// A statement node with the next id.
pub open spec fn stmt_node(b: BuilderView, kind: StmtKindView) -> StmtView {
    StmtView { id: b.next_id, kind, span: no_span() }
}

/// A block of lowered statements.
pub open spec fn block_of(r: Result<Seq<StmtView>, ErrorView>) -> Result<BlockView, ErrorView> {
    match r {
        Ok(ss) => Ok(BlockView { statements: ss, span: no_span() }),
        Err(x) => Err(x),
    }
}

/// The builder state with `name` declared in the current scope, or the
/// error of a name already declared there.
pub open spec fn declare(b: BuilderView, name: Seq<char>, info: SymbolInfoView) -> Result<BuilderView, ErrorView> {
    if find_symbol(b.symbols.scopes[b.symbols.current as int].symbols, name) is Some {
        Err(duplicate_symbol_error(name))
    } else {
        Ok(BuilderView { symbols: inserted(b.symbols, name, info), ..b })
    }
}

/// A variable's symbol information.
pub open spec fn variable_info(t: TypeView, is_mutable: bool) -> SymbolInfoView {
    SymbolInfoView { symbol_type: t, is_mutable, is_function: false, span: no_span() }
}

/// Lowering a statement: the builder state after it and the HIR
/// statement, or the first error. An assignment declares its variable in
/// the current scope; definitions of functions, structs and enums are not
/// statements here. The node takes its id last.
pub open spec fn lower_stmt(b: BuilderView, st: Statement) -> (BuilderView, Result<StmtView, ErrorView>)
    decreases st, 0nat,
{
    match st {
        Statement::Assignment { mutable, identifier, value } => {
            let (b1, rv) = lower_expr(b, value);
            match rv {
                Err(x) => (b1, Err(x)),
                Ok(v) => match declare(b1, identifier@, variable_info(v.ty, mutable)) {
                    Err(x) => (b1, Err(x)),
                    Ok(b2) => (
                        fresh(b2),
                        Ok(stmt_node(b2, StmtKindView::Local(identifier@, v.ty, mutable, Some(v)))),
                    ),
                },
            }
        },
        Statement::Print { expression } => {
            let (b1, r) = lower_expr(b, expression);
            match r {
                Err(x) => (b1, Err(x)),
                Ok(v) => (fresh(b1), Ok(stmt_node(b1, StmtKindView::Print(v)))),
            }
        },
        Statement::Return { value } => match value {
            None => (fresh(b), Ok(stmt_node(b, StmtKindView::Return(None)))),
            Some(e) => {
                let (b1, r) = lower_expr(b, e);
                match r {
                    Err(x) => (b1, Err(x)),
                    Ok(v) => (fresh(b1), Ok(stmt_node(b1, StmtKindView::Return(Some(v))))),
                }
            },
        },
        Statement::Expression { expression } => {
            let (b1, r) = lower_expr(b, expression);
            match r {
                Err(x) => (b1, Err(x)),
                Ok(v) => (fresh(b1), Ok(stmt_node(b1, StmtKindView::Expression(v)))),
            }
        },
        Statement::If { condition, then_block, else_block } => {
            let (b1, rc) = lower_expr(b, condition);
            match rc {
                Err(x) => (b1, Err(x)),
                Ok(c) => {
                    proof {
                        assert(decreases_to!(then_block => then_block@));
                    }
                    let (b2, rt) = lower_block(b1, then_block@, 0, seq![]);
                    match rt {
                        Err(x) => (b2, Err(x)),
                        Ok(t) => match else_block {
                            None => (
                                fresh(b2),
                                Ok(stmt_node(b2, StmtKindView::If(c, BlockView { statements: t, span: no_span() }, None))),
                            ),
                            Some(es) => {
                                proof {
                                    assert(decreases_to!(st => else_block));
                                    assert(decreases_to!(es => es@));
                                }
                                let (b3, re) = lower_block(b2, es@, 0, seq![]);
                                match re {
                                    Err(x) => (b3, Err(x)),
                                    Ok(e) => (
                                        fresh(b3),
                                        Ok(
                                            stmt_node(
                                                b3,
                                                StmtKindView::If(
                                                    c,
                                                    BlockView { statements: t, span: no_span() },
                                                    Some(BlockView { statements: e, span: no_span() }),
                                                ),
                                            ),
                                        ),
                                    ),
                                }
                            },
                        },
                    }
                },
            }
        },
        Statement::While { condition, body } => {
            let (b1, rc) = lower_expr(b, condition);
            match rc {
                Err(x) => (b1, Err(x)),
                Ok(c) => {
                    proof {
                        assert(decreases_to!(body => body@));
                    }
                    let (b2, rb) = lower_block(b1, body@, 0, seq![]);
                    match rb {
                        Err(x) => (b2, Err(x)),
                        Ok(bd) => (
                            fresh(b2),
                            Ok(stmt_node(b2, StmtKindView::While(c, BlockView { statements: bd, span: no_span() }))),
                        ),
                    }
                },
            }
        },
        Statement::For { identifier, iterable, body } => {
            let (b1, ri) = lower_expr(b, iterable);
            match ri {
                Err(x) => (b1, Err(x)),
                Ok(it) => {
                    proof {
                        assert(decreases_to!(body => body@));
                    }
                    let (b2, rb) = lower_block(b1, body@, 0, seq![]);
                    match rb {
                        Err(x) => (b2, Err(x)),
                        Ok(bd) => (
                            fresh(b2),
                            Ok(
                                stmt_node(
                                    b2,
                                    StmtKindView::For(identifier@, it, BlockView { statements: bd, span: no_span() }),
                                ),
                            ),
                        ),
                    }
                },
            }
        },
        _ => (b, Err(semantic("Unsupported statement type in HIR transformation"@))),
    }
}

/// Lowering the statements `s[i..]`, after those already lowered into
/// `acc`.
pub open spec fn lower_block(b: BuilderView, s: Seq<Statement>, i: int, acc: Seq<StmtView>) -> (
    BuilderView,
    Result<Seq<StmtView>, ErrorView>,
)
    decreases s, s.len() - i,
{
    if i < 0 || i >= s.len() {
        (b, Ok(acc))
    } else {
        proof {
            assert(decreases_to!(s => s[i]));
        }
        let (b1, r) = lower_stmt(b, s[i]);
        match r {
            Err(x) => (b1, Err(x)),
            Ok(v) => lower_block(b1, s, i + 1, acc.push(v)),
        }
    }
}

/// The most node ids that lowering a statement takes (for a function,
/// registering and lowering it).
pub open spec fn stmt_cost(st: Statement) -> nat
    decreases st, 0nat,
{
    match st {
        Statement::Assignment { value, .. } => 1 + expr_cost(value),
        Statement::Print { expression } => 1 + expr_cost(expression),
        Statement::Expression { expression } => 1 + expr_cost(expression),
        Statement::Return { value } => 1 + match value {
            Some(e) => expr_cost(e),
            None => 0,
        },
        Statement::If { condition, then_block, else_block } => {
            proof {
                assert(decreases_to!(then_block => then_block@));
            }
            1 + expr_cost(condition) + stmts_cost(then_block@) + match else_block {
                Some(es) => {
                    proof {
                        assert(decreases_to!(st => else_block));
                        assert(decreases_to!(es => es@));
                    }
                    stmts_cost(es@)
                },
                None => 0,
            }
        },
        Statement::While { condition, body } => {
            proof {
                assert(decreases_to!(body => body@));
            }
            1 + expr_cost(condition) + stmts_cost(body@)
        },
        Statement::For { iterable, body, .. } => {
            proof {
                assert(decreases_to!(body => body@));
            }
            1 + expr_cost(iterable) + stmts_cost(body@)
        },
        Statement::Function { parameters, body, .. } => {
            proof {
                assert(decreases_to!(body => body@));
            }
            4 + parameters@.len() + stmts_cost(body@)
        },
        _ => 1,
    }
}

/// The most node ids that lowering statements takes.
pub open spec fn stmts_cost(s: Seq<Statement>) -> nat
    decreases s, s.len(),
{
    if s.len() == 0 {
        0
    } else {
        proof {
            assert(decreases_to!(s => s[s.len() - 1]));
        }
        stmts_cost(s.drop_last()) + stmt_cost(s[s.len() - 1])
    }
}

proof fn lemma_stmts_cost_prefix(s: Seq<Statement>, n: int)
    requires
        0 <= n <= s.len(),
    ensures
        stmts_cost(s.take(n)) <= stmts_cost(s),
        n < s.len() ==> stmts_cost(s.take(n + 1)) == stmts_cost(s.take(n)) + stmt_cost(s[n]),
    decreases s.len(),
{
    if n < s.len() {
        assert(s.take(n + 1).drop_last() =~= s.take(n));
        assert(s.drop_last().take(n) =~= s.take(n));
        lemma_stmts_cost_prefix(s.drop_last(), n);
    } else {
        assert(s.take(n) =~= s);
    }
}


/// The first position from `j` on whose name occurs before it.
pub open spec fn first_duplicate(names: Seq<Seq<char>>, j: int) -> Option<int>
    decreases names.len() - j,
{
    if j < 0 || j >= names.len() {
        None
    } else if names.take(j).contains(names[j]) {
        Some(j)
    } else {
        first_duplicate(names, j + 1)
    }
}

/// The first type name from `j` on that denotes no type.
pub open spec fn first_unknown(types: Seq<(Seq<char>, TypeInfoView)>, names: Seq<Option<Seq<char>>>, j: int) -> Option<
    int,
>
    decreases names.len() - j,
{
    if j < 0 || j >= names.len() {
        None
    } else if names[j] matches Some(t) && resolve_type(types, t) is Err {
        Some(j)
    } else {
        first_unknown(types, names, j + 1)
    }
}

/// Whether a name is that of a built-in type.
pub open spec fn reserved_type_name(name: Seq<char>) -> bool {
    builtin_type(name) is Some
}

/// The names of struct fields.
pub open spec fn field_names(fields: Seq<StructField>) -> Seq<Seq<char>> {
    fields.map_values(|f: StructField| f.name@)
}

/// The type names of struct fields.
pub open spec fn field_types(fields: Seq<StructField>) -> Seq<Option<Seq<char>>> {
    fields.map_values(|f: StructField| Some(f.type_annotation@))
}

/// The names of enum variants.
pub open spec fn variant_names(variants: Seq<EnumVariant>) -> Seq<Seq<char>> {
    variants.map_values(|v: EnumVariant| v.name@)
}

/// The data type names of enum variants.
pub open spec fn variant_types(variants: Seq<EnumVariant>) -> Seq<Option<Seq<char>>> {
    variants.map_values(
        |v: EnumVariant|
            match v.data_type {
                Some(t) => Some(t@),
                None => None,
            },
    )
}


/// The position found holds a type name that denotes no type.
proof fn lemma_first_unknown(types: Seq<(Seq<char>, TypeInfoView)>, names: Seq<Option<Seq<char>>>, k: int)
    requires
        0 <= k,
    ensures
        first_unknown(types, names, k) matches Some(j) ==> k <= j < names.len() && names[j] is Some
            && resolve_type(types, names[j]->0) is Err,
    decreases names.len() - k,
{
    if k < names.len() && !(names[k] matches Some(t) && resolve_type(types, t) is Err) {
        lemma_first_unknown(types, names, k + 1);
    }
}

/// What is wrong with a struct definition, if anything: a field named
/// twice, a field type that denotes no type, or a built-in type's name.
pub open spec fn struct_error(types: Seq<(Seq<char>, TypeInfoView)>, name: Seq<char>, fields: Seq<StructField>) -> Option<
    ErrorView,
> {
    match first_duplicate(field_names(fields), 0) {
        Some(j) => Some(semantic("Duplicate field '"@ + fields[j].name@ + "' in struct '"@ + name + "'"@)),
        None => match first_unknown(types, field_types(fields), 0) {
            Some(j) => Some(semantic("Unknown type: "@ + fields[j].type_annotation@)),
            None => if reserved_type_name(name) {
                Some(semantic("Cannot use reserved type name '"@ + name + "' for struct"@))
            } else {
                None
            },
        },
    }
}

/// What is wrong with an enum definition, if anything: a variant named
/// twice, a data type that denotes no type, a built-in type's name, or no
/// variant at all.
pub open spec fn enum_error(types: Seq<(Seq<char>, TypeInfoView)>, name: Seq<char>, variants: Seq<EnumVariant>) -> Option<
    ErrorView,
> {
    match first_duplicate(variant_names(variants), 0) {
        Some(j) => Some(semantic("Duplicate variant '"@ + variants[j].name@ + "' in enum '"@ + name + "'"@)),
        None => match first_unknown(types, variant_types(variants), 0) {
            Some(j) => Some(semantic("Unknown type: "@ + variant_types(variants)[j]->0)),
            None => if reserved_type_name(name) {
                Some(semantic("Cannot use reserved type name '"@ + name + "' for enum"@))
            } else if variants.len() == 0 {
                Some(semantic("Enum '"@ + name + "' must have at least one variant"@))
            } else {
                None
            },
        },
    }
}

/// What is wrong with a function signature, if anything: a parameter
/// named twice, or the name of a built-in function.
pub open spec fn signature_error(name: Seq<char>, params: Seq<Seq<char>>) -> Option<ErrorView> {
    match first_duplicate(params, 0) {
        Some(j) => Some(semantic("Duplicate parameter '"@ + params[j] + "' in function '"@ + name + "'"@)),
        None => if name == "print"@ || name == "to_string"@ {
            Some(semantic("Cannot redefine built-in function '"@ + name + "'"@))
        } else {
            None
        },
    }
}


/// The members of a type definition from `i` on, their type names
/// resolved, after those in `acc`; the first type name that denotes no
/// type is an error.
pub open spec fn resolve_members(
    types: Seq<(Seq<char>, TypeInfoView)>,
    names: Seq<Seq<char>>,
    tynames: Seq<Option<Seq<char>>>,
    i: int,
    acc: Seq<MemberView>,
) -> Result<Seq<MemberView>, ErrorView>
    decreases names.len() - i,
{
    if i < 0 || i >= names.len() || i >= tynames.len() {
        Ok(acc)
    } else {
        match tynames[i] {
            None => resolve_members(
                types,
                names,
                tynames,
                i + 1,
                acc.push(MemberView { name: names[i], ty: None, span: no_span() }),
            ),
            Some(t) => match resolve_type(types, t) {
                Err(x) => Err(x),
                Ok(tv) => resolve_members(
                    types,
                    names,
                    tynames,
                    i + 1,
                    acc.push(MemberView { name: names[i], ty: Some(tv), span: no_span() }),
                ),
            },
        }
    }
}

/// Lowering a struct or enum definition: its members with their types
/// resolved, and the next id.
pub open spec fn lower_typedef(
    b: BuilderView,
    name: Seq<char>,
    names: Seq<Seq<char>>,
    tynames: Seq<Option<Seq<char>>>,
) -> (BuilderView, Result<TypeDefView, ErrorView>) {
    match resolve_members(b.types, names, tynames, 0, seq![]) {
        Err(x) => (b, Err(x)),
        Ok(ms) => (fresh(b), Ok(TypeDefView { id: b.next_id, name, members: ms, span: no_span() })),
    }
}

/// The field types of struct members by name, later ones replacing
/// earlier ones of the same name.
pub open spec fn struct_map(ms: Seq<MemberView>) -> Seq<(Seq<char>, TypeView)>
    decreases ms.len(),
{
    if ms.len() == 0 {
        seq![]
    } else {
        assoc_put(struct_map(ms.drop_last()), ms.last().name, ms.last().ty->0)
    }
}

/// The data types of enum members by name, later ones replacing earlier
/// ones of the same name.
pub open spec fn enum_map(ms: Seq<MemberView>) -> Seq<(Seq<char>, Option<TypeView>)>
    decreases ms.len(),
{
    if ms.len() == 0 {
        seq![]
    } else {
        assoc_put(enum_map(ms.drop_last()), ms.last().name, ms.last().ty)
    }
}

/// Registering a type definition: the type table with `name` defined, or
/// the first type name that denotes no type.
pub open spec fn register_typedef(
    b: BuilderView,
    name: Seq<char>,
    names: Seq<Seq<char>>,
    tynames: Seq<Option<Seq<char>>>,
    is_struct: bool,
) -> Result<BuilderView, ErrorView> {
    match resolve_members(b.types, names, tynames, 0, seq![]) {
        Err(x) => Err(x),
        Ok(ms) => Ok(
            BuilderView {
                types: assoc_put(
                    b.types,
                    name,
                    if is_struct {
                        TypeInfoView::Struct(struct_map(ms))
                    } else {
                        TypeInfoView::Enum(enum_map(ms))
                    },
                ),
                ..b
            },
        ),
    }
}

/// The plain value of a struct definition.
pub open spec fn struct_view(s: HirStruct) -> TypeDefView {
    TypeDefView { id: s.id, name: s.name@, members: fields_view(s.fields@), span: s.span }
}

/// The plain value of an enum definition.
pub open spec fn enum_view(e: HirEnum) -> TypeDefView {
    TypeDefView { id: e.id, name: e.name@, members: variants_view(e.variants@), span: e.span }
}


/// The type of a function with `n` parameters as registered: each
/// parameter of the same type still to infer (id `p`), and the result of
/// another (id `ret`).
pub open spec fn registered_function_type(n: nat, p: u32, ret: u32) -> TypeView {
    TypeView::Function(inferred_params(n, p), Box::new(TypeView::Infer(ret)))
}

/// `n` parameter types, each the type still to infer with id `p`.
pub open spec fn inferred_params(n: nat, p: u32) -> Seq<TypeView> {
    Seq::new(n, |_k: int| TypeView::Infer(p))
}

/// Registering a function's signature: two ids are taken, then the name
/// is declared in the current scope.
pub open spec fn register_function(b: BuilderView, name: Seq<char>, n: nat) -> (BuilderView, Result<(), ErrorView>) {
    let b2 = fresh(fresh(b));
    let info = SymbolInfoView {
        symbol_type: registered_function_type(n, b.next_id, fresh(b).next_id),
        is_mutable: false,
        is_function: true,
        span: no_span(),
    };
    match declare(b2, name, info) {
        Err(x) => (b2, Err(x)),
        Ok(b3) => (b3, Ok(())),
    }
}

/// Lowering the parameters `ps[i..]`: each takes an id for its type
/// still to infer and is declared in the current scope.
pub open spec fn lower_params(b: BuilderView, ps: Seq<Seq<char>>, i: int, acc: Seq<MemberView>) -> (
    BuilderView,
    Result<Seq<MemberView>, ErrorView>,
)
    decreases ps.len() - i,
{
    if i < 0 || i >= ps.len() {
        (b, Ok(acc))
    } else {
        let t = TypeView::Infer(b.next_id);
        match declare(fresh(b), ps[i], variable_info(t, false)) {
            Err(x) => (fresh(b), Err(x)),
            Ok(b2) => lower_params(b2, ps, i + 1, acc.push(MemberView { name: ps[i], ty: Some(t), span: no_span() })),
        }
    }
}

/// Lowering a function: in a new scope its parameters, then its body;
/// after leaving the scope, the function takes an id, and its result type
/// still to infer takes the next.
pub open spec fn lower_function(b: BuilderView, name: Seq<char>, params: Seq<Seq<char>>, body: Seq<Statement>) -> (
    BuilderView,
    Result<FunctionView, ErrorView>,
) {
    let b1 = BuilderView { symbols: entered(b.symbols), ..b };
    let (b2, rp) = lower_params(b1, params, 0, seq![]);
    match rp {
        Err(x) => (b2, Err(x)),
        Ok(ps) => {
            let (b3, rb) = lower_block(b2, body, 0, seq![]);
            match rb {
                Err(x) => (b3, Err(x)),
                Ok(stmts) => {
                    let b4 = BuilderView { symbols: exited(b3.symbols), ..b3 };
                    (
                        fresh(fresh(b4)),
                        Ok(
                            FunctionView {
                                id: b4.next_id,
                                name,
                                params: ps,
                                ret: TypeView::Infer(fresh(b4).next_id),
                                body: BlockView { statements: stmts, span: no_span() },
                                span: no_span(),
                                is_main: name == "main"@,
                            },
                        ),
                    )
                },
            }
        },
    }
}

/// Lowering a global: its initializer, then the next id.
pub open spec fn lower_global(b: BuilderView, name: Seq<char>, value: Expression, is_mutable: bool) -> (
    BuilderView,
    Result<GlobalView, ErrorView>,
) {
    let (b1, rv) = lower_expr(b, value);
    match rv {
        Err(x) => (b1, Err(x)),
        Ok(v) => (
            fresh(b1),
            Ok(GlobalView { id: b1.next_id, name, ty: v.ty, is_mutable, init: Some(v), span: no_span() }),
        ),
    }
}

/// Whether a statement defines a function, struct, enum or global.
pub open spec fn is_definition(st: Statement) -> bool {
    st is Function || st is Struct || st is Enum || st is Assignment
}

/// Lowering the statements `s[i..]` that are not definitions.
pub open spec fn lower_top_level(b: BuilderView, s: Seq<Statement>, i: int, acc: Seq<StmtView>) -> (
    BuilderView,
    Result<Seq<StmtView>, ErrorView>,
)
    decreases s.len() - i,
{
    if i < 0 || i >= s.len() {
        (b, Ok(acc))
    } else if is_definition(s[i]) {
        lower_top_level(b, s, i + 1, acc)
    } else {
        let (b1, r) = lower_stmt(b, s[i]);
        match r {
            Err(x) => (b1, Err(x)),
            Ok(v) => lower_top_level(b1, s, i + 1, acc.push(v)),
        }
    }
}

/// Lowering the implicit `main` function: the statements that are not
/// definitions, then the function's id.
pub open spec fn lower_main(b: BuilderView, s: Seq<Statement>) -> (BuilderView, Result<FunctionView, ErrorView>) {
    let (b1, r) = lower_top_level(b, s, 0, seq![]);
    match r {
        Err(x) => (b1, Err(x)),
        Ok(stmts) => (
            fresh(b1),
            Ok(
                FunctionView {
                    id: b1.next_id,
                    name: "main"@,
                    params: seq![],
                    ret: TypeView::Unit,
                    body: BlockView { statements: stmts, span: no_span() },
                    span: no_span(),
                    is_main: true,
                },
            ),
        ),
    }
}

/// The plain value of a global.
pub open spec fn global_view(g: HirGlobal) -> GlobalView {
    GlobalView {
        id: g.id,
        name: g.name@,
        ty: g.global_type@,
        is_mutable: g.is_mutable,
        init: opt_expr_view(g.initializer),
        span: g.span,
    }
}


/// The builder state with one more error recorded.
pub open spec fn with_error(b: BuilderView, x: ErrorView) -> BuilderView {
    BuilderView { errors: b.errors.push(x), ..b }
}

/// The first pass from statement `i` on: each struct and enum definition
/// is validated (a problem is recorded and the definition skipped), then
/// lowered and registered (a problem there ends the transformation).
pub open spec fn pass_types(b: BuilderView, s: Seq<Statement>, i: int, items: Seq<ItemView>) -> (
    BuilderView,
    Result<Seq<ItemView>, ErrorView>,
)
    decreases s.len() - i,
{
    if i < 0 || i >= s.len() {
        (b, Ok(items))
    } else {
        match s[i] {
            Statement::Struct { name, fields } => match struct_error(b.types, name@, fields@) {
                Some(x) => pass_types(with_error(b, x), s, i + 1, items),
                None => {
                    let (b1, r) = lower_typedef(b, name@, field_names(fields@), field_types(fields@));
                    match r {
                        Err(x) => (b1, Err(x)),
                        Ok(d) => match register_typedef(b1, name@, field_names(fields@), field_types(fields@), true) {
                            Err(x) => (b1, Err(x)),
                            Ok(b2) => pass_types(b2, s, i + 1, items.push(ItemView::Struct(d))),
                        },
                    }
                },
            },
            Statement::Enum { name, variants } => match enum_error(b.types, name@, variants@) {
                Some(x) => pass_types(with_error(b, x), s, i + 1, items),
                None => {
                    let (b1, r) = lower_typedef(b, name@, variant_names(variants@), variant_types(variants@));
                    match r {
                        Err(x) => (b1, Err(x)),
                        Ok(d) => match register_typedef(
                            b1,
                            name@,
                            variant_names(variants@),
                            variant_types(variants@),
                            false,
                        ) {
                            Err(x) => (b1, Err(x)),
                            Ok(b2) => pass_types(b2, s, i + 1, items.push(ItemView::Enum(d))),
                        },
                    }
                },
            },
            _ => pass_types(b, s, i + 1, items),
        }
    }
}

/// The second pass from statement `i` on: each function signature is
/// validated (a problem is recorded and the function skipped), then
/// registered (a problem there ends the transformation).
pub open spec fn pass_signatures(b: BuilderView, s: Seq<Statement>, i: int) -> (BuilderView, Result<(), ErrorView>)
    decreases s.len() - i,
{
    if i < 0 || i >= s.len() {
        (b, Ok(()))
    } else {
        match s[i] {
            Statement::Function { name, parameters, .. } => match signature_error(name@, texts(parameters@)) {
                Some(x) => pass_signatures(with_error(b, x), s, i + 1),
                None => {
                    let (b1, r) = register_function(b, name@, parameters@.len());
                    match r {
                        Err(x) => (b1, Err(x)),
                        Ok(_) => pass_signatures(b1, s, i + 1),
                    }
                },
            },
            _ => pass_signatures(b, s, i + 1),
        }
    }
}

/// The third pass from statement `i` on: functions and globals are
/// lowered, a problem being recorded and the item left out; whether a
/// `main` function was lowered.
pub open spec fn pass_items(b: BuilderView, s: Seq<Statement>, i: int, items: Seq<ItemView>, has_main: bool) -> (
    BuilderView,
    Seq<ItemView>,
    bool,
)
    decreases s.len() - i,
{
    if i < 0 || i >= s.len() {
        (b, items, has_main)
    } else {
        match s[i] {
            Statement::Function { name, parameters, body } => {
                let (b1, r) = lower_function(b, name@, texts(parameters@), body@);
                match r {
                    Ok(f) => pass_items(b1, s, i + 1, items.push(ItemView::Function(f)), has_main || name@ == "main"@),
                    Err(x) => pass_items(with_error(b1, x), s, i + 1, items, has_main),
                }
            },
            Statement::Assignment { mutable, identifier, value } => {
                let (b1, r) = lower_global(b, identifier@, value, mutable);
                match r {
                    Ok(g) => pass_items(b1, s, i + 1, items.push(ItemView::Global(g)), has_main),
                    Err(x) => pass_items(with_error(b1, x), s, i + 1, items, has_main),
                }
            },
            _ => pass_items(b, s, i + 1, items, has_main),
        }
    }
}

/// Whether some statement is not a definition.
pub open spec fn has_top_level(s: Seq<Statement>) -> bool {
    exists|i: int| 0 <= i < s.len() && !is_definition(#[trigger] s[i])
}

/// The result type of a function from its statements `i..`: the type of
/// the first `return` with a value while none is known (or only unit),
/// and an error when a later one returns another type.
pub open spec fn infer_return(stmts: Seq<StmtView>, i: int, cur: TypeView) -> Result<TypeView, ErrorView>
    decreases stmts.len() - i,
{
    if i < 0 || i >= stmts.len() {
        Ok(cur)
    } else {
        match stmts[i].kind {
            StmtKindView::Return(Some(e)) => if cur is Unit || cur is Infer {
                infer_return(stmts, i + 1, e.ty)
            } else if cur != e.ty {
                Err(semantic("Inconsistent return types in function"@))
            } else {
                infer_return(stmts, i + 1, cur)
            },
            _ => infer_return(stmts, i + 1, cur),
        }
    }
}

/// An item after type inference: a function gets its inferred result
/// type (unit when none), a global the type of its initializer.
pub open spec fn infer_item(it: ItemView) -> Result<ItemView, ErrorView> {
    match it {
        ItemView::Function(f) => match infer_return(f.body.statements, 0, TypeView::Unit) {
            Err(x) => Err(x),
            Ok(t) => Ok(ItemView::Function(FunctionView { ret: if t is Infer { TypeView::Unit } else { t }, ..f })),
        },
        ItemView::Global(g) => Ok(
            ItemView::Global(
                GlobalView {
                    ty: match g.init {
                        Some(e) => e.ty,
                        None => g.ty,
                    },
                    ..g
                },
            ),
        ),
        _ => Ok(it),
    }
}

/// Type inference over the items `i..`, after those in `acc`; the first
/// error ends it.
pub open spec fn infer_items(items: Seq<ItemView>, i: int, acc: Seq<ItemView>) -> Result<Seq<ItemView>, ErrorView>
    decreases items.len() - i,
{
    if i < 0 || i >= items.len() {
        Ok(acc)
    } else {
        match infer_item(items[i]) {
            Err(x) => Err(x),
            Ok(it) => infer_items(items, i + 1, acc.push(it)),
        }
    }
}

/// The first call in an expression of a function that the symbol table
/// does not know.
pub open spec fn expr_calls(sym: SymbolTableView, e: ExprView) -> Option<ErrorView>
    decreases e, 0nat,
{
    match e.kind {
        ExprKindView::Call(f, args) => if resolve(sym.scopes, sym.current as int, f) is None {
            Some(semantic("Function '"@ + f + "' not found"@))
        } else {
            proof {
                assert(decreases_to!(e => e.kind));
            }
            exprs_calls(sym, args, 0)
        },
        ExprKindView::Binary(l, _, r) => match expr_calls(sym, *l) {
            Some(x) => Some(x),
            None => expr_calls(sym, *r),
        },
        ExprKindView::Unary(_, o) => expr_calls(sym, *o),
        ExprKindView::FieldAccess(o, _) => expr_calls(sym, *o),
        ExprKindView::StructInit(_, inits) => {
            proof {
                assert(decreases_to!(e => e.kind));
            }
            inits_calls(sym, inits, 0)
        },
        ExprKindView::Range(a, b) => match expr_calls(sym, *a) {
            Some(x) => Some(x),
            None => expr_calls(sym, *b),
        },
        _ => None,
    }
}

/// The first unknown call in the expressions `s[i..]`.
pub open spec fn exprs_calls(sym: SymbolTableView, s: Seq<ExprView>, i: int) -> Option<ErrorView>
    decreases s, s.len() - i,
{
    if i < 0 || i >= s.len() {
        None
    } else {
        proof {
            assert(decreases_to!(s => s[i]));
        }
        match expr_calls(sym, s[i]) {
            Some(x) => Some(x),
            None => exprs_calls(sym, s, i + 1),
        }
    }
}

/// The first unknown call in the field initializers `s[i..]`.
pub open spec fn inits_calls(sym: SymbolTableView, s: Seq<FieldInitView>, i: int) -> Option<ErrorView>
    decreases s, s.len() - i,
{
    if i < 0 || i >= s.len() {
        None
    } else {
        proof {
            assert(decreases_to!(s => s[i]));
            assert(decreases_to!(s[i] => s[i].value));
        }
        match expr_calls(sym, s[i].value) {
            Some(x) => Some(x),
            None => inits_calls(sym, s, i + 1),
        }
    }
}

/// The first unknown call in an optional expression.
pub open spec fn opt_calls(sym: SymbolTableView, e: Option<ExprView>) -> Option<ErrorView> {
    match e {
        Some(x) => expr_calls(sym, x),
        None => None,
    }
}

/// The first unknown call in a statement.
pub open spec fn stmt_calls(sym: SymbolTableView, st: StmtView) -> Option<ErrorView>
    decreases st, 0nat,
{
    match st.kind {
        StmtKindView::Expression(e) => expr_calls(sym, e),
        StmtKindView::Print(e) => expr_calls(sym, e),
        StmtKindView::Return(e) => opt_calls(sym, e),
        StmtKindView::Local(_, _, _, e) => opt_calls(sym, e),
        StmtKindView::Assign(_, e) => expr_calls(sym, e),
        StmtKindView::If(c, t, e) => match expr_calls(sym, c) {
            Some(x) => Some(x),
            None => {
                proof {
                    assert(decreases_to!(st => st.kind));
                }
                match block_calls(sym, t.statements, 0) {
                    Some(x) => Some(x),
                    None => match e {
                        Some(eb) => block_calls(sym, eb.statements, 0),
                        None => None,
                    },
                }
            },
        },
        StmtKindView::While(c, b) => match expr_calls(sym, c) {
            Some(x) => Some(x),
            None => {
                proof {
                    assert(decreases_to!(st => st.kind));
                }
                block_calls(sym, b.statements, 0)
            },
        },
        StmtKindView::For(_, it, b) => match expr_calls(sym, it) {
            Some(x) => Some(x),
            None => {
                proof {
                    assert(decreases_to!(st => st.kind));
                }
                block_calls(sym, b.statements, 0)
            },
        },
    }
}

/// The first unknown call in the statements `s[i..]`.
pub open spec fn block_calls(sym: SymbolTableView, s: Seq<StmtView>, i: int) -> Option<ErrorView>
    decreases s, s.len() - i,
{
    if i < 0 || i >= s.len() {
        None
    } else {
        proof {
            assert(decreases_to!(s => s[i]));
        }
        match stmt_calls(sym, s[i]) {
            Some(x) => Some(x),
            None => block_calls(sym, s, i + 1),
        }
    }
}

/// The first unknown call in the bodies of the functions among the items
/// `i..`.
pub open spec fn items_calls(sym: SymbolTableView, items: Seq<ItemView>, i: int) -> Option<ErrorView>
    decreases items.len() - i,
{
    if i < 0 || i >= items.len() {
        None
    } else {
        match items[i] {
            ItemView::Function(f) => match block_calls(sym, f.body.statements, 0) {
                Some(x) => Some(x),
                None => items_calls(sym, items, i + 1),
            },
            _ => items_calls(sym, items, i + 1),
        }
    }
}


/// Transforming a program: the three passes over its statements, the
/// implicit `main` function when there is no `main` and some statement is
/// not a definition, type inference, and the check of calls. The first
/// error recorded on the way is returned when no later step failed.
pub open spec fn lower_program(b: BuilderView, s: Seq<Statement>) -> (BuilderView, Result<ProgramView, ErrorView>) {
    let (b1, r1) = pass_types(b, s, 0, seq![]);
    match r1 {
        Err(x) => (b1, Err(x)),
        Ok(items1) => {
            let (b2, r2) = pass_signatures(b1, s, 0);
            match r2 {
                Err(x) => (b2, Err(x)),
                Ok(_) => {
                    let (b3, items3, main3) = pass_items(b2, s, 0, items1, false);
                    let (b4, items4, main4) = if !main3 && has_top_level(s) {
                        let (bm, rm) = lower_main(b3, s);
                        match rm {
                            Ok(f) => (bm, items3.push(ItemView::Function(f)), true),
                            Err(x) => (with_error(bm, x), items3, false),
                        }
                    } else {
                        (b3, items3, main3)
                    };
                    match infer_items(items4, 0, seq![]) {
                        Err(x) => (b4, Err(x)),
                        Ok(items5) => match items_calls(b4.symbols, items5, 0) {
                            Some(x) => (b4, Err(x)),
                            None => if b4.errors.len() > 0 {
                                (b4, Err(b4.errors[0]))
                            } else {
                                (
                                    b4,
                                    Ok(
                                        ProgramView {
                                            items: items5,
                                            symbols: b4.symbols,
                                            types: b4.types,
                                            metadata: MetadataView {
                                                source_file: "main.ov"@,
                                                compiler_version: compiler_version_text(),
                                                has_main_function: main4,
                                                error_count: b4.errors.len(),
                                                warning_count: b4.warnings,
                                            },
                                        },
                                    ),
                                )
                            },
                        },
                    }
                },
            }
        },
    }
}


/// The most node ids that transforming a program takes.
pub open spec fn program_cost(s: Seq<Statement>) -> nat {
    4 * stmts_cost(s) + 1
}

/// A result agrees with its plain value: the same success value, or the
/// same error.
pub open spec fn agrees<T: View>(r: Result<T, OvieError>, s: Result<T::V, ErrorView>) -> bool {
    match s {
        Ok(v) => r is Ok && r->Ok_0@ == v,
        Err(x) => r is Err && r->Err_0@ == x,
    }
}

fn builtin_function(param: HirType, ret: HirType) -> (r: SymbolInfo)
    ensures
        r@ == (SymbolInfoView {
            symbol_type: TypeView::Function(seq![param@], Box::new(ret@)),
            is_mutable: false,
            is_function: true,
            span: no_span(),
        }),
{
    let params = vec![param];
    let r = SymbolInfo {
        symbol_type: HirType::Function { params, return_type: Box::new(ret) },
        is_mutable: false,
        is_function: true,
        span: SourceSpan::default(),
    };
    proof {
        crate::hir::lemma_types_view(params@);
        assert(crate::hir::types_view(params@) =~= seq![params@[0]@]);
    }
    r
}

impl HirBuilder {
    /// Create a new HIR builder: node ids from 1, the built-in functions
    /// in the symbol table, no type definitions, errors or warnings.
    pub fn new() -> (r: Self)
        ensures
            r@ == initial_builder(),
    {
        let mut symbol_table = SymbolTable::new();
        let print = builtin_function(HirType::String, HirType::Unit);
        let to_string = builtin_function(HirType::Number, HirType::String);
        proof {
            reveal_strlit("print");
            reveal_strlit("to_string");
            assert(find_symbol(symbol_table@.scopes[0].symbols, "print"@) is None);
        }
        let ghost pv = print@;
        let _ = symbol_table.insert(owned("print"), print);
        proof {
            let syms = symbol_table@.scopes[0].symbols;
            assert(syms =~= seq![("print"@, pv)]);
            assert(syms.drop_first().len() == 0);
            assert("print"@ != "to_string"@) by {
                assert("print"@[0] != "to_string"@[0]);
            }
            assert(find_symbol(syms.drop_first(), "to_string"@) is None);
            assert(find_symbol(syms, "to_string"@) is None);
        }
        let _ = symbol_table.insert(owned("to_string"), to_string);
        let r = HirBuilder {
            next_node_id: 1,
            symbol_table,
            type_table: TypeTable::new(),
            errors: Vec::new(),
            warnings: Vec::new(),
        };
        assert(r@.errors =~= Seq::<ErrorView>::empty());
        r
    }

    /// Take the next node id.
    fn next_id(&mut self) -> (r: NodeId)
        requires
            old(self)@.next_id < u32::MAX,
        ensures
            r == old(self)@.next_id,
            final(self)@ == fresh(old(self)@),
    {
        let id = self.next_node_id;
        self.next_node_id = self.next_node_id + 1;
        id
    }

    /// The type a type name denotes.
    fn resolve_type(&self, name: &str) -> (r: OvieResult<HirType>)
        ensures
            agrees(r, resolve_type(self@.types, name@)),
    {
        proof {
            reveal_strlit("String");
            reveal_strlit("Number");
            reveal_strlit("Boolean");
            reveal_strlit("Unit");
        }
        if crate::text::same_text(name, "String") {
            Ok(HirType::String)
        } else if crate::text::same_text(name, "Number") {
            Ok(HirType::Number)
        } else if crate::text::same_text(name, "Boolean") {
            Ok(HirType::Boolean)
        } else if crate::text::same_text(name, "Unit") {
            Ok(HirType::Unit)
        } else if self.type_table.contains(name) {
            Ok(HirType::Struct(owned(name)))
        } else {
            let mut m = owned("Unknown type: ");
            append(&mut m, name);
            Err(semantic_error(m))
        }
    }

    /// The type of a field of a value of the given type.
    #[verifier::loop_isolation(false)]
    fn get_field_type(&self, struct_type: &HirType, field_name: &str) -> (r: OvieResult<HirType>)
        ensures
            agrees(r, field_type(self@.types, struct_type@, field_name@)),
    {
        match struct_type {
            HirType::Struct(struct_name) => {
                match self.type_table.get(struct_name.as_str()) {
                    Some(TypeInfo::Struct { fields }) => {
                        let ghost fv = fields@.map_values(|f: (String, HirType)| (f.0@, f.1@));
                        proof {
                            crate::hir::lemma_assoc_index_from(fv, field_name@, 0);
                        }
                        let mut i: usize = 0;
                        while i < fields.len()
                            invariant
                                fv == fields@.map_values(|f: (String, HirType)| (f.0@, f.1@)),
                                i <= fields@.len(),
                                assoc_index_from(fv, field_name@, 0) == assoc_index_from(fv, field_name@, i as int),
                            decreases fields@.len() - i,
                        {
                            assert(fv[i as int] == (fields@[i as int].0@, fields@[i as int].1@));
                            if crate::text::same_text(fields[i].0.as_str(), field_name) {
                                assert(assoc_index_from(fv, field_name@, i as int) == Some(i as int));
                                return Ok(fields[i].1.duplicate());
                            }
                            i = i + 1;
                        }
                        let mut m = owned("Field '");
                        append(&mut m, field_name);
                        append(&mut m, "' not found in struct '");
                        append(&mut m, struct_name.as_str());
                        append(&mut m, "'");
                        Err(semantic_error(m))
                    },
                    _ => {
                        let mut m = owned("Struct '");
                        append(&mut m, struct_name.as_str());
                        append(&mut m, "' not found");
                        Err(semantic_error(m))
                    },
                }
            },
            _ => {
                let mut m = owned("Cannot access field '");
                append(&mut m, field_name);
                append(&mut m, "' on non-struct type ");
                let t = struct_type.debug_text();
                append(&mut m, t.as_str());
                Err(semantic_error(m))
            },
        }
    }
    fn expression(&mut self, kind: HirExpressionKind, expr_type: HirType) -> (r: HirExpression)
        requires
            old(self)@.next_id < u32::MAX,
        ensures
            final(self)@ == fresh(old(self)@),
            r.id == old(self)@.next_id,
            r.kind == kind,
            r.expr_type == expr_type,
            r.span == no_span(),
    {
        let id = self.next_id();
        HirExpression { id, kind, expr_type, span: SourceSpan::default() }
    }

    /// Transform an expression.
    #[verifier::loop_isolation(false)]
    fn transform_expression(&mut self, expression: &Expression) -> (r: OvieResult<HirExpression>)
        requires
            old(self)@.next_id + expr_cost(*expression) <= u32::MAX,
        ensures
            final(self)@ == lower_expr(old(self)@, *expression).0,
            agrees(r, lower_expr(old(self)@, *expression).1),
            final(self)@.next_id <= old(self)@.next_id + expr_cost(*expression),
        decreases expression,
    {
        let ghost b0 = self@;
        match expression {
            Expression::Literal(literal) => {
                let (lit, t) = match literal {
                    Literal::String(s) => (HirLiteral::String(s.clone()), HirType::String),
                    Literal::Number(n) => (HirLiteral::Number(*n), HirType::Number),
                    Literal::Boolean(b) => (HirLiteral::Boolean(*b), HirType::Boolean),
                };
                Ok(self.expression(HirExpressionKind::Literal(lit), t))
            },
            Expression::Identifier(name) => {
                let info = match self.symbol_table.lookup(name.as_str()) {
                    Ok(info) => info,
                    Err(e) => return Err(e),
                };
                Ok(self.expression(HirExpressionKind::Variable(name.clone()), info.symbol_type))
            },
            Expression::Binary { left, operator, right } => {
                let l = match self.transform_expression(&**left) {
                    Ok(l) => l,
                    Err(e) => return Err(e),
                };
                let r = match self.transform_expression(&**right) {
                    Ok(r) => r,
                    Err(e) => return Err(e),
                };
                let op = lower_binary_op(operator);
                let t = match check_binary_op_type(&l.expr_type, op, &r.expr_type) {
                    Ok(t) => t,
                    Err(e) => return Err(e),
                };
                Ok(self.expression(HirExpressionKind::Binary { left: Box::new(l), op, right: Box::new(r) }, t))
            },
            Expression::Unary { operator, operand } => {
                let o = match self.transform_expression(&**operand) {
                    Ok(o) => o,
                    Err(e) => return Err(e),
                };
                let op = lower_unary_op(operator);
                let t = match check_unary_op_type(op, &o.expr_type) {
                    Ok(t) => t,
                    Err(e) => return Err(e),
                };
                Ok(self.expression(HirExpressionKind::Unary { op, operand: Box::new(o) }, t))
            },
            Expression::Call { function, arguments } => {
                let mut args: Vec<HirExpression> = Vec::new();
                let mut i: usize = 0;
                proof {
                    assert(args@ =~= Seq::<HirExpression>::empty());
                    lemma_args_cost_prefix(arguments@, 0);
                }
                while i < arguments.len()
                    invariant
                        i <= arguments@.len(),
                        lower_args(b0, arguments@, 0, seq![]) == lower_args(
                            self@,
                            arguments@,
                            i as int,
                            crate::hir_tree::exprs_view(args@),
                        ),
                        self@.next_id <= b0.next_id + args_cost(arguments@.take(i as int)),
                        args_cost(arguments@.take(i as int)) <= args_cost(arguments@),
                    decreases arguments@.len() - i,
                {
                    proof {
                        assert(decreases_to!(arguments@ => arguments@[i as int]));
                        lemma_args_cost_prefix(arguments@, i as int);
                        lemma_args_cost_prefix(arguments@, i as int + 1);
                    }
                    let a = match self.transform_expression(&arguments[i]) {
                        Ok(a) => a,
                        Err(e) => return Err(e),
                    };
                    let ghost before = args@;
                    args.push(a);
                    assert(args@.drop_last() =~= before);
                    i = i + 1;
                }
                let info = match self.symbol_table.lookup(function.as_str()) {
                    Ok(info) => info,
                    Err(e) => return Err(e),
                };
                let t = match info.symbol_type {
                    HirType::Function { return_type, .. } => *return_type,
                    _ => HirType::Infer(self.next_id()),
                };
                Ok(self.expression(HirExpressionKind::Call { function: function.clone(), arguments: args }, t))
            },
            Expression::FieldAccess { object, field } => {
                let o = match self.transform_expression(&**object) {
                    Ok(o) => o,
                    Err(e) => return Err(e),
                };
                let t = match self.get_field_type(&o.expr_type, field.as_str()) {
                    Ok(t) => t,
                    Err(e) => return Err(e),
                };
                Ok(self.expression(HirExpressionKind::FieldAccess { object: Box::new(o), field: field.clone() }, t))
            },
            Expression::StructInstantiation { struct_name, fields } => {
                let mut inits: Vec<HirFieldInit> = Vec::new();
                let mut i: usize = 0;
                proof {
                    assert(inits@ =~= Seq::<HirFieldInit>::empty());
                    lemma_inits_cost_prefix(fields@, 0);
                }
                while i < fields.len()
                    invariant
                        i <= fields@.len(),
                        lower_inits(b0, fields@, 0, seq![]) == lower_inits(
                            self@,
                            fields@,
                            i as int,
                            crate::hir_tree::inits_view(inits@),
                        ),
                        self@.next_id <= b0.next_id + inits_cost(fields@.take(i as int)),
                        inits_cost(fields@.take(i as int)) <= inits_cost(fields@),
                    decreases fields@.len() - i,
                {
                    proof {
                        assert(decreases_to!(fields@ => fields@[i as int]));
                        assert(decreases_to!(fields@[i as int] => fields@[i as int].value));
                        lemma_inits_cost_prefix(fields@, i as int);
                        lemma_inits_cost_prefix(fields@, i as int + 1);
                    }
                    let v = match self.transform_expression(&fields[i].value) {
                        Ok(v) => v,
                        Err(e) => return Err(e),
                    };
                    let ghost before = inits@;
                    inits.push(HirFieldInit { name: fields[i].name.clone(), value: v, span: SourceSpan::default() });
                    assert(inits@.drop_last() =~= before);
                    i = i + 1;
                }
                Ok(
                    self.expression(
                        HirExpressionKind::StructInit { struct_name: struct_name.clone(), fields: inits },
                        HirType::Struct(struct_name.clone()),
                    ),
                )
            },
            Expression::Range { start, end } => {
                let st = match self.transform_expression(&**start) {
                    Ok(x) => x,
                    Err(e) => return Err(e),
                };
                let en = match self.transform_expression(&**end) {
                    Ok(x) => x,
                    Err(e) => return Err(e),
                };
                let t = HirType::Range(Box::new(st.expr_type.duplicate()));
                Ok(self.expression(HirExpressionKind::Range { start: Box::new(st), end: Box::new(en) }, t))
            },
        }
    }

    /// The first type name that denotes no type.
    fn unknown_at(&self, names: &Vec<Option<String>>) -> (r: Option<usize>)
        ensures
            r matches Some(j) ==> first_unknown(self@.types, opt_texts(names@), 0) == Some(j as int) && j
                < names@.len(),
            r is None ==> first_unknown(self@.types, opt_texts(names@), 0) is None,
    {
        let ghost v = opt_texts(names@);
        let mut j: usize = 0;
        while j < names.len()
            invariant
                v == opt_texts(names@),
                j <= names@.len(),
                first_unknown(self@.types, v, 0) == first_unknown(self@.types, v, j as int),
            decreases names@.len() - j,
        {
            match &names[j] {
                Some(t) => {
                    if self.resolve_type(t.as_str()).is_err() {
                        return Some(j);
                    }
                },
                None => {},
            }
            j = j + 1;
        }
        None
    }

    /// Validate a struct definition.
    fn validate_struct_definition(&self, name: &str, fields: &Vec<StructField>) -> (r: OvieResult<()>)
        ensures
            match struct_error(self@.types, name@, fields@) {
                Some(x) => r is Err && r->Err_0@ == x,
                None => r is Ok,
            },
    {
        let mut names: Vec<String> = Vec::new();
        let mut tys: Vec<Option<String>> = Vec::new();
        let mut i: usize = 0;
        while i < fields.len()
            invariant
                i <= fields@.len(),
                texts(names@) == field_names(fields@).take(i as int),
                opt_texts(tys@) == field_types(fields@).take(i as int),
            decreases fields@.len() - i,
        {
            let ghost old_names = names@;
            let ghost old_tys = tys@;
            names.push(fields[i].name.clone());
            tys.push(Some(fields[i].type_annotation.clone()));
            assert(opt_texts(old_tys).len() == i);
            assert(texts(old_names).len() == i);
            proof {
                let n1 = field_names(fields@);
                let t1 = field_types(fields@);
                assert(texts(names@) =~= texts(old_names).push(names@[i as int]@));
                assert(opt_texts(tys@) =~= opt_texts(old_tys).push(opt_texts(tys@)[i as int]));
                assert(n1.take(i + 1) =~= n1.take(i as int).push(n1[i as int]));
                assert(t1.take(i + 1) =~= t1.take(i as int).push(t1[i as int]));
            }
            i = i + 1;
        }
        assert(texts(names@) =~= field_names(fields@));
        assert(opt_texts(tys@) =~= field_types(fields@));
        match duplicate_at(&names) {
            Some(j) => {
                let mut m = owned("Duplicate field '");
                append(&mut m, fields[j].name.as_str());
                append(&mut m, "' in struct '");
                append(&mut m, name);
                append(&mut m, "'");
                return Err(semantic_error(m));
            },
            None => {},
        }
        match self.unknown_at(&tys) {
            Some(j) => {
                let mut m = owned("Unknown type: ");
                append(&mut m, fields[j].type_annotation.as_str());
                return Err(semantic_error(m));
            },
            None => {},
        }
        if self.resolve_builtin(name) {
            let mut m = owned("Cannot use reserved type name '");
            append(&mut m, name);
            append(&mut m, "' for struct");
            return Err(semantic_error(m));
        }
        Ok(())
    }

    /// Validate an enum definition.
    fn validate_enum_definition(&self, name: &str, variants: &Vec<EnumVariant>) -> (r: OvieResult<()>)
        ensures
            match enum_error(self@.types, name@, variants@) {
                Some(x) => r is Err && r->Err_0@ == x,
                None => r is Ok,
            },
    {
        let mut names: Vec<String> = Vec::new();
        let mut tys: Vec<Option<String>> = Vec::new();
        let mut i: usize = 0;
        while i < variants.len()
            invariant
                i <= variants@.len(),
                texts(names@) == variant_names(variants@).take(i as int),
                opt_texts(tys@) == variant_types(variants@).take(i as int),
            decreases variants@.len() - i,
        {
            let ghost old_names = names@;
            let ghost old_tys = tys@;
            assert(opt_texts(old_tys).len() == i);
            assert(texts(old_names).len() == i);
            names.push(variants[i].name.clone());
            tys.push(
                match &variants[i].data_type {
                    Some(t) => Some(t.clone()),
                    None => None,
                },
            );
            proof {
                let n1 = variant_names(variants@);
                let t1 = variant_types(variants@);
                assert(texts(names@) =~= texts(old_names).push(names@[i as int]@));
                assert(opt_texts(tys@) =~= opt_texts(old_tys).push(opt_texts(tys@)[i as int]));
                assert(n1.take(i + 1) =~= n1.take(i as int).push(n1[i as int]));
                assert(t1.take(i + 1) =~= t1.take(i as int).push(t1[i as int]));
            }
            i = i + 1;
        }
        assert(texts(names@) =~= variant_names(variants@));
        assert(opt_texts(tys@) =~= variant_types(variants@));
        match duplicate_at(&names) {
            Some(j) => {
                let mut m = owned("Duplicate variant '");
                append(&mut m, variants[j].name.as_str());
                append(&mut m, "' in enum '");
                append(&mut m, name);
                append(&mut m, "'");
                return Err(semantic_error(m));
            },
            None => {},
        }
        proof {
            lemma_first_unknown(self@.types, opt_texts(tys@), 0);
        }
        match self.unknown_at(&tys) {
            Some(j) => {
                let mut m = owned("Unknown type: ");
                match &tys[j] {
                    Some(t) => append(&mut m, t.as_str()),
                    None => {},
                }
                return Err(semantic_error(m));
            },
            None => {},
        }
        if self.resolve_builtin(name) {
            let mut m = owned("Cannot use reserved type name '");
            append(&mut m, name);
            append(&mut m, "' for enum");
            return Err(semantic_error(m));
        }
        if variants.len() == 0 {
            let mut m = owned("Enum '");
            append(&mut m, name);
            append(&mut m, "' must have at least one variant");
            return Err(semantic_error(m));
        }
        Ok(())
    }

    /// Validate a function signature.
    fn validate_function_signature(&self, name: &str, parameters: &Vec<String>) -> (r: OvieResult<()>)
        ensures
            match signature_error(name@, texts(parameters@)) {
                Some(x) => r is Err && r->Err_0@ == x,
                None => r is Ok,
            },
    {
        match duplicate_at(parameters) {
            Some(j) => {
                let mut m = owned("Duplicate parameter '");
                append(&mut m, parameters[j].as_str());
                append(&mut m, "' in function '");
                append(&mut m, name);
                append(&mut m, "'");
                return Err(semantic_error(m));
            },
            None => {},
        }
        proof {
            reveal_strlit("print");
            reveal_strlit("to_string");
        }
        if crate::text::same_text(name, "print") || crate::text::same_text(name, "to_string") {
            let mut m = owned("Cannot redefine built-in function '");
            append(&mut m, name);
            append(&mut m, "'");
            return Err(semantic_error(m));
        }
        Ok(())
    }

    /// Whether a name is that of a built-in type.
    fn resolve_builtin(&self, name: &str) -> (r: bool)
        ensures
            r == reserved_type_name(name@),
    {
        proof {
            reveal_strlit("String");
            reveal_strlit("Number");
            reveal_strlit("Boolean");
            reveal_strlit("Unit");
        }
        crate::text::same_text(name, "String") || crate::text::same_text(name, "Number")
            || crate::text::same_text(name, "Boolean") || crate::text::same_text(name, "Unit")
    }

    /// Transform a struct definition.
    fn transform_struct(&mut self, name: &str, fields: &Vec<StructField>) -> (r: OvieResult<HirStruct>)
        requires
            old(self)@.next_id < u32::MAX,
        ensures
            final(self)@ == lower_typedef(old(self)@, name@, field_names(fields@), field_types(fields@)).0,
            match lower_typedef(old(self)@, name@, field_names(fields@), field_types(fields@)).1 {
                Ok(v) => r is Ok && struct_view(r->Ok_0) == v,
                Err(x) => r is Err && r->Err_0@ == x,
            },
    {
        let ghost names = field_names(fields@);
        let ghost tys = field_types(fields@);
        let mut out: Vec<HirField> = Vec::new();
        let mut i: usize = 0;
        assert(fields_view(out@) =~= Seq::<MemberView>::empty());
        while i < fields.len()
            invariant
                names == field_names(fields@),
                tys == field_types(fields@),
                i <= fields@.len(),
                out@.len() == i,
                resolve_members(self@.types, names, tys, 0, seq![]) == resolve_members(
                    self@.types,
                    names,
                    tys,
                    i as int,
                    fields_view(out@),
                ),
            decreases fields@.len() - i,
        {
            let t = match self.resolve_type(fields[i].type_annotation.as_str()) {
                Ok(t) => t,
                Err(e) => return Err(e),
            };
            let ghost before = out@;
            out.push(HirField { name: fields[i].name.clone(), field_type: t, span: SourceSpan::default() });
            assert(fields_view(out@) =~= fields_view(before).push(
                MemberView { name: names[i as int], ty: Some(out@[i as int].field_type@), span: no_span() },
            ));
            i = i + 1;
        }
        let id = self.next_id();
        Ok(HirStruct { id, name: owned(name), fields: out, span: SourceSpan::default() })
    }

    /// Transform an enum definition.
    fn transform_enum(&mut self, name: &str, variants: &Vec<EnumVariant>) -> (r: OvieResult<HirEnum>)
        requires
            old(self)@.next_id < u32::MAX,
        ensures
            final(self)@ == lower_typedef(old(self)@, name@, variant_names(variants@), variant_types(variants@)).0,
            match lower_typedef(old(self)@, name@, variant_names(variants@), variant_types(variants@)).1 {
                Ok(v) => r is Ok && enum_view(r->Ok_0) == v,
                Err(x) => r is Err && r->Err_0@ == x,
            },
    {
        let ghost names = variant_names(variants@);
        let ghost tys = variant_types(variants@);
        let mut out: Vec<HirVariant> = Vec::new();
        let mut i: usize = 0;
        assert(variants_view(out@) =~= Seq::<MemberView>::empty());
        while i < variants.len()
            invariant
                names == variant_names(variants@),
                tys == variant_types(variants@),
                i <= variants@.len(),
                out@.len() == i,
                resolve_members(self@.types, names, tys, 0, seq![]) == resolve_members(
                    self@.types,
                    names,
                    tys,
                    i as int,
                    variants_view(out@),
                ),
            decreases variants@.len() - i,
        {
            let data_type = match &variants[i].data_type {
                Some(t) => match self.resolve_type(t.as_str()) {
                    Ok(t) => Some(t),
                    Err(e) => return Err(e),
                },
                None => None,
            };
            let ghost before = out@;
            out.push(HirVariant { name: variants[i].name.clone(), data_type, span: SourceSpan::default() });
            assert(variants_view(out@) =~= variants_view(before).push(
                MemberView {
                    name: names[i as int],
                    ty: crate::hir::opt_type_view(out@[i as int].data_type),
                    span: no_span(),
                },
            ));
            i = i + 1;
        }
        let id = self.next_id();
        Ok(HirEnum { id, name: owned(name), variants: out, span: SourceSpan::default() })
    }

    /// Register a struct type in the type table.
    fn register_struct_type(&mut self, name: &str, fields: &Vec<StructField>) -> (r: OvieResult<()>)
        ensures
            match register_typedef(old(self)@, name@, field_names(fields@), field_types(fields@), true) {
                Ok(b) => r is Ok && final(self)@ == b,
                Err(x) => r is Err && r->Err_0@ == x && final(self)@ == old(self)@,
            },
    {
        let ghost names = field_names(fields@);
        let ghost tys = field_types(fields@);
        let ghost mut ms: Seq<MemberView> = seq![];
        let mut map: Vec<(String, HirType)> = Vec::new();
        let mut i: usize = 0;
        assert(map@.map_values(|f: (String, HirType)| (f.0@, f.1@)) =~= struct_map(ms));
        while i < fields.len()
            invariant
                names == field_names(fields@),
                tys == field_types(fields@),
                i <= fields@.len(),
                ms.len() == i,
                forall|j: int| 0 <= j < i ==> (#[trigger] ms[j]).ty is Some,
                resolve_members(self@.types, names, tys, 0, seq![]) == resolve_members(
                    self@.types,
                    names,
                    tys,
                    i as int,
                    ms,
                ),
                map@.map_values(|f: (String, HirType)| (f.0@, f.1@)) == struct_map(ms),
            decreases fields@.len() - i,
        {
            let t = match self.resolve_type(fields[i].type_annotation.as_str()) {
                Ok(t) => t,
                Err(e) => return Err(e),
            };
            let ghost m = MemberView { name: names[i as int], ty: Some(t@), span: no_span() };
            put_field(&mut map, fields[i].name.clone(), t);
            proof {
                assert(ms.push(m).drop_last() =~= ms);
                ms = ms.push(m);
            }
            i = i + 1;
        }
        self.type_table.insert(owned(name), TypeInfo::Struct { fields: map });
        Ok(())
    }

    /// Register an enum type in the type table.
    fn register_enum_type(&mut self, name: &str, variants: &Vec<EnumVariant>) -> (r: OvieResult<()>)
        ensures
            match register_typedef(old(self)@, name@, variant_names(variants@), variant_types(variants@), false) {
                Ok(b) => r is Ok && final(self)@ == b,
                Err(x) => r is Err && r->Err_0@ == x && final(self)@ == old(self)@,
            },
    {
        let ghost names = variant_names(variants@);
        let ghost tys = variant_types(variants@);
        let ghost mut ms: Seq<MemberView> = seq![];
        let mut map: Vec<(String, Option<HirType>)> = Vec::new();
        let mut i: usize = 0;
        assert(map@.map_values(|f: (String, Option<HirType>)| (f.0@, crate::hir::opt_type_view(f.1))) =~= enum_map(ms));
        while i < variants.len()
            invariant
                names == variant_names(variants@),
                tys == variant_types(variants@),
                i <= variants@.len(),
                ms.len() == i,
                resolve_members(self@.types, names, tys, 0, seq![]) == resolve_members(
                    self@.types,
                    names,
                    tys,
                    i as int,
                    ms,
                ),
                map@.map_values(|f: (String, Option<HirType>)| (f.0@, crate::hir::opt_type_view(f.1))) == enum_map(ms),
            decreases variants@.len() - i,
        {
            let data_type = match &variants[i].data_type {
                Some(t) => match self.resolve_type(t.as_str()) {
                    Ok(t) => Some(t),
                    Err(e) => return Err(e),
                },
                None => None,
            };
            let ghost m = MemberView { name: names[i as int], ty: crate::hir::opt_type_view(data_type), span: no_span() };
            put_variant(&mut map, variants[i].name.clone(), data_type);
            proof {
                assert(ms.push(m).drop_last() =~= ms);
                ms = ms.push(m);
            }
            i = i + 1;
        }
        self.type_table.insert(owned(name), TypeInfo::Enum { variants: map });
        Ok(())
    }

    /// Register a function's signature in the symbol table.
    fn register_function(&mut self, name: &str, parameters: &Vec<String>) -> (r: OvieResult<()>)
        requires
            old(self)@.next_id + 2 <= u32::MAX,
        ensures
            final(self)@ == register_function(old(self)@, name@, parameters@.len()).0,
            agrees(r, register_function(old(self)@, name@, parameters@.len()).1),
    {
        let ghost b0 = self@;
        let p = self.next_id();
        let mut params: Vec<HirType> = Vec::new();
        let mut i: usize = 0;
        while i < parameters.len()
            invariant
                self@ == fresh(b0),
                i <= parameters@.len(),
                params@.len() == i,
                forall|j: int| 0 <= j < i ==> (#[trigger] params@[j])@ == TypeView::Infer(p),
            decreases parameters@.len() - i,
        {
            params.push(HirType::Infer(p));
            i = i + 1;
        }
        let ret = self.next_id();
        proof {
            crate::hir::lemma_types_view(params@);
            assert(crate::hir::types_view(params@) =~= inferred_params(parameters@.len(), p));
        }
        let ghost pg = params@;
        let rt = HirType::Infer(ret);
        assert(rt@ == TypeView::Infer(ret));
        let ft = HirType::Function { params, return_type: Box::new(rt) };
        assert(ft@ == TypeView::Function(crate::hir::types_view(pg), Box::new(TypeView::Infer(ret))));
        assert(p == b0.next_id);
        assert(ret == fresh(b0).next_id);
        let info = SymbolInfo {
            symbol_type: ft,
            is_mutable: false,
            is_function: true,
            span: SourceSpan::default(),
        };
        let ghost b2 = self@;
        assert(b2 == fresh(fresh(b0)));
        assert(info@ == SymbolInfoView {
            symbol_type: registered_function_type(parameters@.len(), b0.next_id, fresh(b0).next_id),
            is_mutable: false,
            is_function: true,
            span: no_span(),
        });
        let r = self.symbol_table.insert(owned(name), info);
        assert(self@.symbols == self.symbol_table@);
        r
    }

    /// Transform a function definition.
    #[verifier::loop_isolation(false)]
    fn transform_function(&mut self, name: &str, parameters: &Vec<String>, body: &Vec<Statement>) -> (r: OvieResult<
        HirFunction,
    >)
        requires
            old(self)@.next_id + parameters@.len() + stmts_cost(body@) + 2 <= u32::MAX,
        ensures
            final(self)@ == lower_function(old(self)@, name@, texts(parameters@), body@).0,
            match lower_function(old(self)@, name@, texts(parameters@), body@).1 {
                Ok(v) => r is Ok && function_view(r->Ok_0) == v,
                Err(x) => r is Err && r->Err_0@ == x,
            },
            final(self)@.next_id <= old(self)@.next_id + parameters@.len() + stmts_cost(body@) + 2,
    {
        let ghost b0 = self@;
        let ghost ps = texts(parameters@);
        self.symbol_table.enter_scope();
        let ghost b1 = self@;
        assert(b1 == BuilderView { symbols: entered(b0.symbols), ..b0 });
        let mut hir_params: Vec<HirParameter> = Vec::new();
        let mut i: usize = 0;
        assert(crate::hir_tree::params_view(hir_params@) =~= Seq::<MemberView>::empty());
        while i < parameters.len()
            invariant
                ps == texts(parameters@),
                i <= parameters@.len(),
                hir_params@.len() == i,
                self@.next_id == b0.next_id + i,
                lower_params(b1, ps, 0, seq![]) == lower_params(
                    self@,
                    ps,
                    i as int,
                    crate::hir_tree::params_view(hir_params@),
                ),
            decreases parameters@.len() - i,
        {
            let id = self.next_id();
            let info = SymbolInfo {
                symbol_type: HirType::Infer(id),
                is_mutable: false,
                is_function: false,
                span: SourceSpan::default(),
            };
            match self.symbol_table.insert(parameters[i].clone(), info) {
                Err(e) => return Err(e),
                Ok(()) => {},
            }
            let ghost before = hir_params@;
            hir_params.push(
                HirParameter { name: parameters[i].clone(), param_type: HirType::Infer(id), span: SourceSpan::default() },
            );
            assert(crate::hir_tree::params_view(hir_params@) =~= crate::hir_tree::params_view(before).push(
                MemberView { name: ps[i as int], ty: Some(TypeView::Infer(id)), span: no_span() },
            ));
            i = i + 1;
        }
        let hir_body = match self.transform_block(body) {
            Ok(b) => b,
            Err(e) => return Err(e),
        };
        self.symbol_table.exit_scope();
        let id = self.next_id();
        let ret = self.next_id();
        proof {
            reveal_strlit("main");
        }
        let is_main = crate::text::same_text(name, "main");
        Ok(
            HirFunction {
                id,
                name: owned(name),
                parameters: hir_params,
                return_type: HirType::Infer(ret),
                body: hir_body,
                span: SourceSpan::default(),
                is_main,
            },
        )
    }

    /// Transform a global variable.
    fn transform_global(&mut self, name: &str, value: &Expression, is_mutable: bool) -> (r: OvieResult<HirGlobal>)
        requires
            old(self)@.next_id + expr_cost(*value) + 1 <= u32::MAX,
        ensures
            final(self)@ == lower_global(old(self)@, name@, *value, is_mutable).0,
            match lower_global(old(self)@, name@, *value, is_mutable).1 {
                Ok(v) => r is Ok && global_view(r->Ok_0) == v,
                Err(x) => r is Err && r->Err_0@ == x,
            },
            final(self)@.next_id <= old(self)@.next_id + expr_cost(*value) + 1,
    {
        let initializer = match self.transform_expression(value) {
            Ok(v) => v,
            Err(e) => return Err(e),
        };
        let global_type = initializer.expr_type.duplicate();
        let id = self.next_id();
        Ok(
            HirGlobal {
                id,
                name: owned(name),
                global_type,
                is_mutable,
                initializer: Some(initializer),
                span: SourceSpan::default(),
            },
        )
    }

    /// Transform the top-level statements that are not definitions.
    #[verifier::loop_isolation(false)]
    fn transform_top_level(&mut self, statements: &Vec<Statement>) -> (r: OvieResult<Vec<HirStatement>>)
        requires
            old(self)@.next_id + stmts_cost(statements@) <= u32::MAX,
        ensures
            final(self)@ == lower_top_level(old(self)@, statements@, 0, seq![]).0,
            match lower_top_level(old(self)@, statements@, 0, seq![]).1 {
                Ok(v) => r is Ok && crate::hir_tree::stmts_view(r->Ok_0@) == v,
                Err(x) => r is Err && r->Err_0@ == x,
            },
            final(self)@.next_id <= old(self)@.next_id + stmts_cost(statements@),
    {
        let ghost b0 = self@;
        let mut out: Vec<HirStatement> = Vec::new();
        let mut i: usize = 0;
        proof {
            assert(out@ =~= Seq::<HirStatement>::empty());
            lemma_stmts_cost_prefix(statements@, 0);
        }
        while i < statements.len()
            invariant
                i <= statements@.len(),
                lower_top_level(b0, statements@, 0, seq![]) == lower_top_level(
                    self@,
                    statements@,
                    i as int,
                    crate::hir_tree::stmts_view(out@),
                ),
                self@.next_id <= b0.next_id + stmts_cost(statements@.take(i as int)),
                stmts_cost(statements@.take(i as int)) <= stmts_cost(statements@),
            decreases statements@.len() - i,
        {
            proof {
                lemma_stmts_cost_prefix(statements@, i as int);
                lemma_stmts_cost_prefix(statements@, i as int + 1);
            }
            if !is_definition_statement(&statements[i]) {
                let st = match self.transform_statement(&statements[i]) {
                    Ok(v) => v,
                    Err(e) => return Err(e),
                };
                let ghost before = out@;
                out.push(st);
                assert(out@.drop_last() =~= before);
            }
            i = i + 1;
        }
        Ok(out)
    }

    /// Create the implicit main function from the top-level statements
    /// that are not definitions.
    fn create_implicit_main(&mut self, statements: &Vec<Statement>) -> (r: OvieResult<HirFunction>)
        requires
            old(self)@.next_id + stmts_cost(statements@) + 1 <= u32::MAX,
        ensures
            final(self)@ == lower_main(old(self)@, statements@).0,
            match lower_main(old(self)@, statements@).1 {
                Ok(v) => r is Ok && function_view(r->Ok_0) == v,
                Err(x) => r is Err && r->Err_0@ == x,
            },
            final(self)@.next_id <= old(self)@.next_id + stmts_cost(statements@) + 1,
    {
        let out = match self.transform_top_level(statements) {
            Ok(v) => v,
            Err(e) => return Err(e),
        };
        let id = self.next_id();
        let f = HirFunction {
            id,
            name: owned("main"),
            parameters: Vec::new(),
            return_type: HirType::Unit,
            body: HirBlock { statements: out, span: SourceSpan::default() },
            span: SourceSpan::default(),
            is_main: true,
        };
        assert(crate::hir_tree::params_view(f.parameters@) =~= Seq::<MemberView>::empty());
        Ok(f)
    }

    fn record_error(&mut self, e: OvieError)
        ensures
            final(self)@ == with_error(old(self)@, e@),
    {
        let ghost before = self.errors@;
        self.errors.push(e);
        assert(self.errors@.map_values(|x: OvieError| x@) =~= before.map_values(|x: OvieError| x@).push(e@));
    }

    /// First pass: validate, transform and register the struct and enum
    /// definitions.
    #[verifier::loop_isolation(false)]
    fn collect_type_definitions(&mut self, statements: &Vec<Statement>) -> (r: OvieResult<Vec<HirItem>>)
        requires
            old(self)@.next_id + stmts_cost(statements@) <= u32::MAX,
        ensures
            final(self)@ == pass_types(old(self)@, statements@, 0, seq![]).0,
            match pass_types(old(self)@, statements@, 0, seq![]).1 {
                Ok(v) => r is Ok && items_view(r->Ok_0@) == v,
                Err(x) => r is Err && r->Err_0@ == x,
            },
            final(self)@.next_id <= old(self)@.next_id + stmts_cost(statements@),
    {
        let ghost b0 = self@;
        let mut items: Vec<HirItem> = Vec::new();
        let mut i: usize = 0;
        proof {
            assert(items_view(items@) =~= Seq::<ItemView>::empty());
            lemma_stmts_cost_prefix(statements@, 0);
        }
        while i < statements.len()
            invariant
                i <= statements@.len(),
                pass_types(b0, statements@, 0, seq![]) == pass_types(self@, statements@, i as int, items_view(items@)),
                self@.next_id <= b0.next_id + stmts_cost(statements@.take(i as int)),
                stmts_cost(statements@.take(i as int)) <= stmts_cost(statements@),
            decreases statements@.len() - i,
        {
            proof {
                lemma_stmts_cost_prefix(statements@, i as int);
                lemma_stmts_cost_prefix(statements@, i as int + 1);
            }
            match &statements[i] {
                Statement::Struct { name, fields } => {
                    match self.validate_struct_definition(name.as_str(), fields) {
                        Err(e) => {
                            self.record_error(e);
                        },
                        Ok(()) => {
                            let d = match self.transform_struct(name.as_str(), fields) {
                                Ok(d) => d,
                                Err(e) => return Err(e),
                            };
                            match self.register_struct_type(name.as_str(), fields) {
                                Err(e) => return Err(e),
                                Ok(()) => {},
                            }
                            let ghost before = items@;
                            items.push(HirItem::Struct(d));
                            assert(items_view(items@) =~= items_view(before).push(items@.last()@));
                        },
                    }
                },
                Statement::Enum { name, variants } => {
                    match self.validate_enum_definition(name.as_str(), variants) {
                        Err(e) => {
                            self.record_error(e);
                        },
                        Ok(()) => {
                            let d = match self.transform_enum(name.as_str(), variants) {
                                Ok(d) => d,
                                Err(e) => return Err(e),
                            };
                            match self.register_enum_type(name.as_str(), variants) {
                                Err(e) => return Err(e),
                                Ok(()) => {},
                            }
                            let ghost before = items@;
                            items.push(HirItem::Enum(d));
                            assert(items_view(items@) =~= items_view(before).push(items@.last()@));
                        },
                    }
                },
                _ => {},
            }
            i = i + 1;
        }
        Ok(items)
    }

    /// Second pass: validate and register the function signatures.
    #[verifier::loop_isolation(false)]
    fn register_signatures(&mut self, statements: &Vec<Statement>) -> (r: OvieResult<()>)
        requires
            old(self)@.next_id + stmts_cost(statements@) <= u32::MAX,
        ensures
            final(self)@ == pass_signatures(old(self)@, statements@, 0).0,
            match pass_signatures(old(self)@, statements@, 0).1 {
                Ok(_) => r is Ok,
                Err(x) => r is Err && r->Err_0@ == x,
            },
            final(self)@.next_id <= old(self)@.next_id + stmts_cost(statements@),
    {
        let ghost b0 = self@;
        let mut i: usize = 0;
        proof {
            lemma_stmts_cost_prefix(statements@, 0);
        }
        while i < statements.len()
            invariant
                i <= statements@.len(),
                pass_signatures(b0, statements@, 0) == pass_signatures(self@, statements@, i as int),
                self@.next_id <= b0.next_id + stmts_cost(statements@.take(i as int)),
                stmts_cost(statements@.take(i as int)) <= stmts_cost(statements@),
            decreases statements@.len() - i,
        {
            proof {
                lemma_stmts_cost_prefix(statements@, i as int);
                lemma_stmts_cost_prefix(statements@, i as int + 1);
            }
            match &statements[i] {
                Statement::Function { name, parameters, .. } => {
                    match self.validate_function_signature(name.as_str(), parameters) {
                        Err(e) => {
                            self.record_error(e);
                        },
                        Ok(()) => {
                            match self.register_function(name.as_str(), parameters) {
                                Err(e) => return Err(e),
                                Ok(()) => {},
                            }
                        },
                    }
                },
                _ => {},
            }
            i = i + 1;
        }
        Ok(())
    }

    /// Third pass: transform the functions and globals; whether a `main`
    /// function was transformed.
    #[verifier::loop_isolation(false)]
    fn transform_items(&mut self, statements: &Vec<Statement>, items: Vec<HirItem>) -> (r: (Vec<HirItem>, bool))
        requires
            old(self)@.next_id + stmts_cost(statements@) <= u32::MAX,
        ensures
            final(self)@ == pass_items(old(self)@, statements@, 0, items_view(items@), false).0,
            items_view(r.0@) == pass_items(old(self)@, statements@, 0, items_view(items@), false).1,
            r.1 == pass_items(old(self)@, statements@, 0, items_view(items@), false).2,
            final(self)@.next_id <= old(self)@.next_id + stmts_cost(statements@),
    {
        let ghost b0 = self@;
        let ghost items0 = items_view(items@);
        let mut items = items;
        let mut has_main = false;
        let mut i: usize = 0;
        proof {
            lemma_stmts_cost_prefix(statements@, 0);
        }
        while i < statements.len()
            invariant
                i <= statements@.len(),
                pass_items(b0, statements@, 0, items0, false) == pass_items(
                    self@,
                    statements@,
                    i as int,
                    items_view(items@),
                    has_main,
                ),
                self@.next_id <= b0.next_id + stmts_cost(statements@.take(i as int)),
                stmts_cost(statements@.take(i as int)) <= stmts_cost(statements@),
            decreases statements@.len() - i,
        {
            proof {
                lemma_stmts_cost_prefix(statements@, i as int);
                lemma_stmts_cost_prefix(statements@, i as int + 1);
            }
            match &statements[i] {
                Statement::Function { name, parameters, body } => {
                    match self.transform_function(name.as_str(), parameters, body) {
                        Ok(f) => {
                            proof {
                                reveal_strlit("main");
                            }
                            if crate::text::same_text(name.as_str(), "main") {
                                has_main = true;
                            }
                            let ghost before = items@;
                            items.push(HirItem::Function(f));
                            assert(items_view(items@) =~= items_view(before).push(items@.last()@));
                        },
                        Err(e) => {
                            self.record_error(e);
                        },
                    }
                },
                Statement::Assignment { identifier, value, mutable } => {
                    match self.transform_global(identifier.as_str(), value, *mutable) {
                        Ok(g) => {
                            let ghost before = items@;
                            items.push(HirItem::Global(g));
                            assert(items_view(items@) =~= items_view(before).push(items@.last()@));
                        },
                        Err(e) => {
                            self.record_error(e);
                        },
                    }
                },
                _ => {},
            }
            i = i + 1;
        }
        (items, has_main)
    }

    /// The result type of a function from the `return`s of its body.
    #[verifier::loop_isolation(false)]
    fn infer_block_return_type(&self, block: &HirBlock) -> (r: OvieResult<HirType>)
        ensures
            match infer_return(block@.statements, 0, TypeView::Unit) {
                Ok(t) => r is Ok && r->Ok_0@ == t,
                Err(x) => r is Err && r->Err_0@ == x,
            },
    {
        let ghost sv = crate::hir_tree::stmts_view(block.statements@);
        proof {
            crate::hir_tree::lemma_stmts_view(block.statements@);
        }
        let mut cur = HirType::Unit;
        let mut i: usize = 0;
        while i < block.statements.len()
            invariant
                sv == block@.statements,
                i <= block.statements@.len(),
                infer_return(sv, 0, TypeView::Unit) == infer_return(sv, i as int, cur@),
            decreases block.statements@.len() - i,
        {
            match &block.statements[i].kind {
                HirStatementKind::Return(Some(e)) => {
                    let open = match cur {
                        HirType::Unit => true,
                        HirType::Infer(_) => true,
                        _ => false,
                    };
                    if open {
                        cur = e.expr_type.duplicate();
                    } else if !cur.same_as(&e.expr_type) {
                        proof {
                            reveal_strlit("Inconsistent return types in function");
                        }
                        return Err(semantic_error(owned("Inconsistent return types in function")));
                    }
                },
                _ => {},
            }
            i = i + 1;
        }
        Ok(cur)
    }

    /// Type inference on an item.
    fn infer_item(&self, item: HirItem) -> (r: OvieResult<HirItem>)
        ensures
            match infer_item(item@) {
                Ok(v) => r is Ok && r->Ok_0@ == v,
                Err(x) => r is Err && r->Err_0@ == x,
            },
    {
        match item {
            HirItem::Function(f) => {
                let t = match self.infer_block_return_type(&f.body) {
                    Ok(t) => t,
                    Err(e) => return Err(e),
                };
                let ret = match t {
                    HirType::Infer(_) => HirType::Unit,
                    other => other,
                };
                Ok(HirItem::Function(HirFunction { return_type: ret, ..f }))
            },
            HirItem::Global(g) => {
                let global_type = match &g.initializer {
                    Some(init) => init.expr_type.duplicate(),
                    None => g.global_type,
                };
                Ok(HirItem::Global(HirGlobal { global_type, ..g }))
            },
            other => Ok(other),
        }
    }

    /// Type inference over the items.
    #[verifier::loop_isolation(false)]
    fn perform_type_inference(&self, items: Vec<HirItem>) -> (r: OvieResult<Vec<HirItem>>)
        ensures
            match infer_items(items_view(items@), 0, seq![]) {
                Ok(v) => r is Ok && items_view(r->Ok_0@) == v,
                Err(x) => r is Err && r->Err_0@ == x,
            },
    {
        let ghost all = items_view(items@);
        let mut rest = items;
        let mut out: Vec<HirItem> = Vec::new();
        assert(items_view(out@) =~= Seq::<ItemView>::empty());
        assert(items_view(rest@) =~= all.skip(0));
        while rest.len() > 0
            invariant
                out@.len() <= all.len(),
                items_view(rest@) == all.skip(out@.len() as int),
                infer_items(all, 0, seq![]) == infer_items(all, out@.len() as int, items_view(out@)),
            decreases rest@.len(),
        {
            let ghost k = out@.len() as int;
            let ghost rv = rest@;
            let item = rest.remove(0);
            assert(items_view(rv)[0] == all.skip(k)[0]);
            assert(all[k] == item@);
            assert(items_view(rest@) =~= all.skip(k + 1)) by {
                assert(rest@ =~= rv.skip(1));
                assert forall|j: int| 0 <= j < rest@.len() implies #[trigger] items_view(rest@)[j] == all.skip(k + 1)[j] by {
                    assert(items_view(rv)[j + 1] == all.skip(k)[j + 1]);
                }
            }
            let it = match self.infer_item(item) {
                Ok(it) => it,
                Err(e) => return Err(e),
            };
            let ghost before = out@;
            out.push(it);
            assert(items_view(out@) =~= items_view(before).push(out@.last()@));
        }
        assert(out@.len() == all.len());
        Ok(out)
    }

    /// Check the calls in an expression against the symbol table.
    #[verifier::loop_isolation(false)]
    fn validate_expression_calls(&self, expr: &HirExpression) -> (r: OvieResult<()>)
        ensures
            match expr_calls(self@.symbols, expr@) {
                Some(x) => r is Err && r->Err_0@ == x,
                None => r is Ok,
            },
        decreases expr,
    {
        match &expr.kind {
            HirExpressionKind::Call { function, arguments } => {
                if self.symbol_table.lookup(function.as_str()).is_err() {
                    let mut m = owned("Function '");
                    append(&mut m, function.as_str());
                    append(&mut m, "' not found");
                    return Err(semantic_error(m));
                }
                let ghost av = crate::hir_tree::exprs_view(arguments@);
                proof {
                    crate::hir_tree::lemma_exprs_view(arguments@);
                }
                let mut i: usize = 0;
                while i < arguments.len()
                    invariant
                        av == crate::hir_tree::exprs_view(arguments@),
                        i <= arguments@.len(),
                        exprs_calls(self@.symbols, av, 0) == exprs_calls(self@.symbols, av, i as int),
                    decreases arguments@.len() - i,
                {
                    proof {
                        assert(decreases_to!(arguments@ => arguments@[i as int]));
                    }
                    match self.validate_expression_calls(&arguments[i]) {
                        Err(e) => return Err(e),
                        Ok(()) => {},
                    }
                    i = i + 1;
                }
                Ok(())
            },
            HirExpressionKind::Binary { left, right, .. } => {
                match self.validate_expression_calls(&**left) {
                    Err(e) => return Err(e),
                    Ok(()) => {},
                }
                self.validate_expression_calls(&**right)
            },
            HirExpressionKind::Unary { operand, .. } => self.validate_expression_calls(&**operand),
            HirExpressionKind::FieldAccess { object, .. } => self.validate_expression_calls(&**object),
            HirExpressionKind::StructInit { fields, .. } => {
                let ghost fv = crate::hir_tree::inits_view(fields@);
                proof {
                    crate::hir_tree::lemma_inits_view(fields@);
                }
                let mut i: usize = 0;
                while i < fields.len()
                    invariant
                        fv == crate::hir_tree::inits_view(fields@),
                        i <= fields@.len(),
                        inits_calls(self@.symbols, fv, 0) == inits_calls(self@.symbols, fv, i as int),
                    decreases fields@.len() - i,
                {
                    proof {
                        assert(decreases_to!(fields@ => fields@[i as int]));
                        assert(decreases_to!(fields@[i as int] => fields@[i as int].value));
                    }
                    match self.validate_expression_calls(&fields[i].value) {
                        Err(e) => return Err(e),
                        Ok(()) => {},
                    }
                    i = i + 1;
                }
                Ok(())
            },
            HirExpressionKind::Range { start, end } => {
                match self.validate_expression_calls(&**start) {
                    Err(e) => return Err(e),
                    Ok(()) => {},
                }
                self.validate_expression_calls(&**end)
            },
            _ => Ok(()),
        }
    }

    fn validate_optional_calls(&self, expr: &Option<HirExpression>) -> (r: OvieResult<()>)
        ensures
            match opt_calls(self@.symbols, crate::hir_tree::opt_expr_view(*expr)) {
                Some(x) => r is Err && r->Err_0@ == x,
                None => r is Ok,
            },
    {
        match expr {
            Some(e) => self.validate_expression_calls(e),
            None => Ok(()),
        }
    }

    /// Check the calls in a statement.
    fn validate_statement_calls(&self, stmt: &HirStatement) -> (r: OvieResult<()>)
        ensures
            match stmt_calls(self@.symbols, stmt@) {
                Some(x) => r is Err && r->Err_0@ == x,
                None => r is Ok,
            },
        decreases stmt, 0nat,
    {
        match &stmt.kind {
            HirStatementKind::Expression(e) => self.validate_expression_calls(e),
            HirStatementKind::Print(e) => self.validate_expression_calls(e),
            HirStatementKind::Return(e) => self.validate_optional_calls(e),
            HirStatementKind::Local { initializer, .. } => self.validate_optional_calls(initializer),
            HirStatementKind::Assign { value, .. } => self.validate_expression_calls(value),
            HirStatementKind::If { condition, then_block, else_block } => {
                match self.validate_expression_calls(condition) {
                    Err(e) => return Err(e),
                    Ok(()) => {},
                }
                match self.validate_function_calls(&then_block.statements) {
                    Err(e) => return Err(e),
                    Ok(()) => {},
                }
                match else_block {
                    Some(b) => {
                        proof {
                            assert(decreases_to!(*stmt => stmt.kind));
                        }
                        self.validate_function_calls(&b.statements)
                    },
                    None => Ok(()),
                }
            },
            HirStatementKind::While { condition, body } => {
                match self.validate_expression_calls(condition) {
                    Err(e) => return Err(e),
                    Ok(()) => {},
                }
                self.validate_function_calls(&body.statements)
            },
            HirStatementKind::For { iterable, body, .. } => {
                match self.validate_expression_calls(iterable) {
                    Err(e) => return Err(e),
                    Ok(()) => {},
                }
                self.validate_function_calls(&body.statements)
            },
        }
    }

    /// Check the calls in a block's statements.
    #[verifier::loop_isolation(false)]
    fn validate_function_calls(&self, statements: &Vec<HirStatement>) -> (r: OvieResult<()>)
        ensures
            match block_calls(self@.symbols, crate::hir_tree::stmts_view(statements@), 0) {
                Some(x) => r is Err && r->Err_0@ == x,
                None => r is Ok,
            },
        decreases statements@, 1nat,
    {
        let ghost sv = crate::hir_tree::stmts_view(statements@);
        proof {
            crate::hir_tree::lemma_stmts_view(statements@);
        }
        let mut i: usize = 0;
        while i < statements.len()
            invariant
                sv == crate::hir_tree::stmts_view(statements@),
                i <= statements@.len(),
                block_calls(self@.symbols, sv, 0) == block_calls(self@.symbols, sv, i as int),
            decreases statements@.len() - i,
        {
            proof {
                assert(decreases_to!(statements@ => statements@[i as int]));
            }
            match self.validate_statement_calls(&statements[i]) {
                Err(e) => return Err(e),
                Ok(()) => {},
            }
            i = i + 1;
        }
        Ok(())
    }

    /// Check the calls in the bodies of the functions.
    #[verifier::loop_isolation(false)]
    fn validate_program_semantics(&self, items: &Vec<HirItem>) -> (r: OvieResult<()>)
        ensures
            match items_calls(self@.symbols, items_view(items@), 0) {
                Some(x) => r is Err && r->Err_0@ == x,
                None => r is Ok,
            },
    {
        let ghost iv = items_view(items@);
        let mut i: usize = 0;
        while i < items.len()
            invariant
                iv == items_view(items@),
                i <= items@.len(),
                items_calls(self@.symbols, iv, 0) == items_calls(self@.symbols, iv, i as int),
            decreases items@.len() - i,
        {
            match &items[i] {
                HirItem::Function(f) => {
                    match self.validate_function_calls(&f.body.statements) {
                        Err(e) => return Err(e),
                        Ok(()) => {},
                    }
                },
                _ => {},
            }
            i = i + 1;
        }
        Ok(())
    }

    /// Transform an AST into HIR: struct and enum definitions first, then
    /// function signatures, then functions and globals, an implicit `main`
    /// from the other top-level statements when no `main` was defined,
    /// type inference and the check of calls. Problems with single
    /// definitions are recorded as the transformation goes on, and the
    /// first recorded one is returned at the end.
    pub fn transform_ast(&mut self, ast: &AstNode) -> (r: OvieResult<HirProgram>)
        requires
            old(self)@.next_id + program_cost(ast.statements@) <= u32::MAX,
        ensures
            final(self)@ == lower_program(old(self)@, ast.statements@).0,
            match lower_program(old(self)@, ast.statements@).1 {
                Ok(v) => r is Ok && r->Ok_0@ == v,
                Err(x) => r is Err && r->Err_0@ == x,
            },
    {
        let statements = &ast.statements;
        let items = match self.collect_type_definitions(statements) {
            Ok(items) => items,
            Err(e) => return Err(e),
        };
        match self.register_signatures(statements) {
            Err(e) => return Err(e),
            Ok(()) => {},
        }
        let (mut items, mut has_main) = self.transform_items(statements, items);
        if !has_main && has_top_level_statement(statements) {
            match self.create_implicit_main(statements) {
                Ok(main_function) => {
                    let ghost before = items@;
                    items.push(HirItem::Function(main_function));
                    assert(items_view(items@) =~= items_view(before).push(items@.last()@));
                    has_main = true;
                },
                Err(e) => {
                    self.record_error(e);
                },
            }
        }
        let items = match self.perform_type_inference(items) {
            Ok(items) => items,
            Err(e) => return Err(e),
        };
        match self.validate_program_semantics(&items) {
            Err(e) => return Err(e),
            Ok(()) => {},
        }
        let metadata = HirMetadata {
            source_file: owned("main.ov"),
            compiler_version: owned(compiler_version()),
            has_main_function: has_main,
            error_count: self.errors.len(),
            warning_count: self.warnings.len(),
        };
        if self.errors.len() > 0 {
            return Err(self.errors[0].duplicate());
        }
        proof {
            reveal_strlit("main.ov");
        }
        Ok(
            HirProgram {
                items,
                symbol_table: self.symbol_table.duplicate(),
                type_table: self.type_table.duplicate(),
                metadata,
            },
        )
    }

    fn statement(&mut self, kind: HirStatementKind) -> (r: HirStatement)
        requires
            old(self)@.next_id < u32::MAX,
        ensures
            final(self)@ == fresh(old(self)@),
            r.id == old(self)@.next_id,
            r.kind == kind,
            r.span == no_span(),
    {
        let id = self.next_id();
        HirStatement { id, kind, span: SourceSpan::default() }
    }

    /// Transform a statement.
    #[verifier::loop_isolation(false)]
    fn transform_statement(&mut self, statement: &Statement) -> (r: OvieResult<HirStatement>)
        requires
            old(self)@.next_id + stmt_cost(*statement) <= u32::MAX,
        ensures
            final(self)@ == lower_stmt(old(self)@, *statement).0,
            agrees(r, lower_stmt(old(self)@, *statement).1),
            final(self)@.next_id <= old(self)@.next_id + stmt_cost(*statement),
        decreases statement, 0nat,
    {
        match statement {
            Statement::Assignment { mutable, identifier, value } => {
                let v = match self.transform_expression(value) {
                    Ok(v) => v,
                    Err(e) => return Err(e),
                };
                let var_type = v.expr_type.duplicate();
                let info = SymbolInfo {
                    symbol_type: v.expr_type.duplicate(),
                    is_mutable: *mutable,
                    is_function: false,
                    span: SourceSpan::default(),
                };
                match self.symbol_table.insert(identifier.clone(), info) {
                    Err(e) => return Err(e),
                    Ok(()) => {},
                }
                Ok(
                    self.statement(
                        HirStatementKind::Local {
                            name: identifier.clone(),
                            var_type,
                            is_mutable: *mutable,
                            initializer: Some(v),
                        },
                    ),
                )
            },
            Statement::Print { expression } => {
                let v = match self.transform_expression(expression) {
                    Ok(v) => v,
                    Err(e) => return Err(e),
                };
                Ok(self.statement(HirStatementKind::Print(v)))
            },
            Statement::Return { value } => {
                let v = match value {
                    Some(e) => match self.transform_expression(e) {
                        Ok(v) => Some(v),
                        Err(e) => return Err(e),
                    },
                    None => None,
                };
                Ok(self.statement(HirStatementKind::Return(v)))
            },
            Statement::Expression { expression } => {
                let v = match self.transform_expression(expression) {
                    Ok(v) => v,
                    Err(e) => return Err(e),
                };
                Ok(self.statement(HirStatementKind::Expression(v)))
            },
            Statement::If { condition, then_block, else_block } => {
                let c = match self.transform_expression(condition) {
                    Ok(v) => v,
                    Err(e) => return Err(e),
                };
                let t = match self.transform_block(then_block) {
                    Ok(v) => v,
                    Err(e) => return Err(e),
                };
                let e = match else_block {
                    Some(es) => {
                        proof {
                            assert(decreases_to!(*statement => *else_block));
                        }
                        match self.transform_block(es) {
                            Ok(v) => Some(v),
                            Err(e) => return Err(e),
                        }
                    },
                    None => None,
                };
                Ok(self.statement(HirStatementKind::If { condition: c, then_block: t, else_block: e }))
            },
            Statement::While { condition, body } => {
                let c = match self.transform_expression(condition) {
                    Ok(v) => v,
                    Err(e) => return Err(e),
                };
                let bd = match self.transform_block(body) {
                    Ok(v) => v,
                    Err(e) => return Err(e),
                };
                Ok(self.statement(HirStatementKind::While { condition: c, body: bd }))
            },
            Statement::For { identifier, iterable, body } => {
                let it = match self.transform_expression(iterable) {
                    Ok(v) => v,
                    Err(e) => return Err(e),
                };
                let bd = match self.transform_block(body) {
                    Ok(v) => v,
                    Err(e) => return Err(e),
                };
                Ok(self.statement(HirStatementKind::For { variable: identifier.clone(), iterable: it, body: bd }))
            },
            _ => {
                proof {
                    reveal_strlit("Unsupported statement type in HIR transformation");
                }
                Err(semantic_error(owned("Unsupported statement type in HIR transformation")))
            },
        }
    }

    /// Transform a block of statements.
    #[verifier::loop_isolation(false)]
    fn transform_block(&mut self, statements: &Vec<Statement>) -> (r: OvieResult<HirBlock>)
        requires
            old(self)@.next_id + stmts_cost(statements@) <= u32::MAX,
        ensures
            final(self)@ == lower_block(old(self)@, statements@, 0, seq![]).0,
            agrees(r, block_of(lower_block(old(self)@, statements@, 0, seq![]).1)),
            final(self)@.next_id <= old(self)@.next_id + stmts_cost(statements@),
        decreases statements@, 1nat,
    {
        let ghost b0 = self@;
        let mut out: Vec<HirStatement> = Vec::new();
        let mut i: usize = 0;
        proof {
            assert(out@ =~= Seq::<HirStatement>::empty());
            lemma_stmts_cost_prefix(statements@, 0);
        }
        while i < statements.len()
            invariant
                i <= statements@.len(),
                lower_block(b0, statements@, 0, seq![]) == lower_block(
                    self@,
                    statements@,
                    i as int,
                    crate::hir_tree::stmts_view(out@),
                ),
                self@.next_id <= b0.next_id + stmts_cost(statements@.take(i as int)),
                stmts_cost(statements@.take(i as int)) <= stmts_cost(statements@),
            decreases statements@.len() - i,
        {
            proof {
                assert(decreases_to!(statements@ => statements@[i as int]));
                lemma_stmts_cost_prefix(statements@, i as int);
                lemma_stmts_cost_prefix(statements@, i as int + 1);
            }
            let st = match self.transform_statement(&statements[i]) {
                Ok(v) => v,
                Err(e) => return Err(e),
            };
            let ghost before = out@;
            out.push(st);
            assert(out@.drop_last() =~= before);
            i = i + 1;
        }
        Ok(HirBlock { statements: out, span: SourceSpan::default() })
    }
}


/// The plain values of texts.
pub open spec fn texts(v: Seq<String>) -> Seq<Seq<char>> {
    v.map_values(|s: String| s@)
}

/// The plain values of optional texts.
pub open spec fn opt_texts(v: Seq<Option<String>>) -> Seq<Option<Seq<char>>> {
    v.map_values(
        |s: Option<String>|
            match s {
                Some(t) => Some(t@),
                None => None,
            },
    )
}

/// The first position whose name occurs before it.
fn duplicate_at(names: &Vec<String>) -> (r: Option<usize>)
    ensures
        r matches Some(j) ==> first_duplicate(texts(names@), 0) == Some(j as int) && j < names@.len(),
        r is None ==> first_duplicate(texts(names@), 0) is None,
{
    let ghost v = texts(names@);
    let mut j: usize = 0;
    while j < names.len()
        invariant
            v == texts(names@),
            j <= names@.len(),
            first_duplicate(v, 0) == first_duplicate(v, j as int),
        decreases names@.len() - j,
    {
        let mut k: usize = 0;
        while k < j
            invariant
                v == texts(names@),
                j < names@.len(),
                k <= j,
                first_duplicate(v, 0) == first_duplicate(v, j as int),
                forall|m: int| 0 <= m < k ==> v[m] != v[j as int],
            decreases j - k,
        {
            if names[k] == names[j] {
                assert(v.take(j as int)[k as int] == v[j as int]);
                assert(v.take(j as int).contains(v[j as int]));
                return Some(j);
            }
            k = k + 1;
        }
        assert(!v.take(j as int).contains(v[j as int])) by {
            if v.take(j as int).contains(v[j as int]) {
                let m = choose|m: int| 0 <= m < v.take(j as int).len() && v.take(j as int)[m] == v[j as int];
                assert(v[m] == v[j as int]);
            }
        }
        j = j + 1;
    }
    None
}


/// Set `k` to `t` in a list of fields.
fn put_field(v: &mut Vec<(String, HirType)>, k: String, t: HirType)
    ensures
        final(v)@.map_values(|f: (String, HirType)| (f.0@, f.1@)) == assoc_put(
            old(v)@.map_values(|f: (String, HirType)| (f.0@, f.1@)),
            k@,
            t@,
        ),
{
    let ghost m = v@.map_values(|f: (String, HirType)| (f.0@, f.1@));
    proof {
        crate::hir::lemma_assoc_index_from(m, k@, 0);
    }
    let mut i: usize = 0;
    while i < v.len()
        invariant
            m == v@.map_values(|f: (String, HirType)| (f.0@, f.1@)),
            v@ == old(v)@,
            i <= v@.len(),
            assoc_index_from(m, k@, 0) == assoc_index_from(m, k@, i as int),
        decreases v@.len() - i,
    {
        if v[i].0 == k {
            assert(assoc_index_from(m, k@, i as int) == Some(i as int));
            v.set(i, (k, t));
            assert(v@.map_values(|f: (String, HirType)| (f.0@, f.1@)) =~= m.update(i as int, (v@[i as int].0@, v@[i as int].1@)));
            return;
        }
        i = i + 1;
    }
    v.push((k, t));
    assert(v@.map_values(|f: (String, HirType)| (f.0@, f.1@)) =~= m.push((v@.last().0@, v@.last().1@)));
}

/// Set `k` to `t` in a list of variants.
fn put_variant(v: &mut Vec<(String, Option<HirType>)>, k: String, t: Option<HirType>)
    ensures
        final(v)@.map_values(|f: (String, Option<HirType>)| (f.0@, crate::hir::opt_type_view(f.1))) == assoc_put(
            old(v)@.map_values(|f: (String, Option<HirType>)| (f.0@, crate::hir::opt_type_view(f.1))),
            k@,
            crate::hir::opt_type_view(t),
        ),
{
    let ghost m = v@.map_values(|f: (String, Option<HirType>)| (f.0@, crate::hir::opt_type_view(f.1)));
    proof {
        crate::hir::lemma_assoc_index_from(m, k@, 0);
    }
    let mut i: usize = 0;
    while i < v.len()
        invariant
            m == v@.map_values(|f: (String, Option<HirType>)| (f.0@, crate::hir::opt_type_view(f.1))),
            v@ == old(v)@,
            i <= v@.len(),
            assoc_index_from(m, k@, 0) == assoc_index_from(m, k@, i as int),
        decreases v@.len() - i,
    {
        if v[i].0 == k {
            assert(assoc_index_from(m, k@, i as int) == Some(i as int));
            v.set(i, (k, t));
            assert(v@.map_values(|f: (String, Option<HirType>)| (f.0@, crate::hir::opt_type_view(f.1))) =~= m.update(
                i as int,
                (v@[i as int].0@, crate::hir::opt_type_view(v@[i as int].1)),
            ));
            return;
        }
        i = i + 1;
    }
    v.push((k, t));
    assert(v@.map_values(|f: (String, Option<HirType>)| (f.0@, crate::hir::opt_type_view(f.1))) =~= m.push(
        (v@.last().0@, crate::hir::opt_type_view(v@.last().1)),
    ));
}


/// Whether a statement defines a function, struct, enum or global.
fn is_definition_statement(st: &Statement) -> (r: bool)
    ensures
        r == is_definition(*st),
{
    match st {
        Statement::Function { .. } => true,
        Statement::Struct { .. } => true,
        Statement::Enum { .. } => true,
        Statement::Assignment { .. } => true,
        _ => false,
    }
}


/// Whether some statement is not a definition.
fn has_top_level_statement(statements: &Vec<Statement>) -> (r: bool)
    ensures
        r == has_top_level(statements@),
{
    let mut i: usize = 0;
    while i < statements.len()
        invariant
            i <= statements@.len(),
            forall|j: int| 0 <= j < i ==> is_definition(#[trigger] statements@[j]),
        decreases statements@.len() - i,
    {
        if !is_definition_statement(&statements[i]) {
            return true;
        }
        i = i + 1;
    }
    false
}

impl Default for HirBuilder {
    fn default() -> (r: Self)
        ensures
            r@ == initial_builder(),
    {
        HirBuilder::new()
    }
}

fn semantic_error(message: String) -> (r: OvieError)
    ensures
        r@ == semantic(message@),
{
    OvieError::semantic_error(1, 1, message)
}

fn lower_binary_op(op: &BinaryOperator) -> (r: HirBinaryOp)
    ensures
        r == binary_op(*op),
{
    match op {
        BinaryOperator::Add => HirBinaryOp::Add,
        BinaryOperator::Subtract => HirBinaryOp::Sub,
        BinaryOperator::Multiply => HirBinaryOp::Mul,
        BinaryOperator::Divide => HirBinaryOp::Div,
        BinaryOperator::Modulo => HirBinaryOp::Mod,
        BinaryOperator::Equal => HirBinaryOp::Eq,
        BinaryOperator::NotEqual => HirBinaryOp::Ne,
        BinaryOperator::Less => HirBinaryOp::Lt,
        BinaryOperator::LessEqual => HirBinaryOp::Le,
        BinaryOperator::Greater => HirBinaryOp::Gt,
        BinaryOperator::GreaterEqual => HirBinaryOp::Ge,
        BinaryOperator::And => HirBinaryOp::And,
        BinaryOperator::Or => HirBinaryOp::Or,
    }
}

fn lower_unary_op(op: &UnaryOperator) -> (r: HirUnaryOp)
    ensures
        r == unary_op(*op),
{
    match op {
        UnaryOperator::Not => HirUnaryOp::Not,
        UnaryOperator::Negate => HirUnaryOp::Neg,
    }
}

fn binary_op_name(op: HirBinaryOp) -> (r: &'static str)
    ensures
        r@ == binary_op_debug(op),
{
    match op {
        HirBinaryOp::Add => "Add",
        HirBinaryOp::Sub => "Sub",
        HirBinaryOp::Mul => "Mul",
        HirBinaryOp::Div => "Div",
        HirBinaryOp::Mod => "Mod",
        HirBinaryOp::Eq => "Eq",
        HirBinaryOp::Ne => "Ne",
        HirBinaryOp::Lt => "Lt",
        HirBinaryOp::Le => "Le",
        HirBinaryOp::Gt => "Gt",
        HirBinaryOp::Ge => "Ge",
        HirBinaryOp::And => "And",
        HirBinaryOp::Or => "Or",
    }
}

/// Type check a binary operation.
pub fn check_binary_op_type(left: &HirType, op: HirBinaryOp, right: &HirType) -> (r: OvieResult<HirType>)
    ensures
        match binary_type(left@, op, right@) {
            Ok(t) => r matches Ok(x) && x@ == t,
            Err(e) => r matches Err(x) && x@ == e,
        },
{
    let arith = op == HirBinaryOp::Add || op == HirBinaryOp::Sub || op == HirBinaryOp::Mul || op == HirBinaryOp::Div
        || op == HirBinaryOp::Mod;
    let order = op == HirBinaryOp::Lt || op == HirBinaryOp::Le || op == HirBinaryOp::Gt || op == HirBinaryOp::Ge;
    let logic = op == HirBinaryOp::And || op == HirBinaryOp::Or;
    let equality = op == HirBinaryOp::Eq || op == HirBinaryOp::Ne;
    match (left, right) {
        (HirType::Number, HirType::Number) => {
            if arith {
                return Ok(HirType::Number);
            }
            if order || equality {
                return Ok(HirType::Boolean);
            }
        },
        (HirType::String, HirType::String) => {
            if op == HirBinaryOp::Add {
                return Ok(HirType::String);
            }
            if equality {
                return Ok(HirType::Boolean);
            }
        },
        (HirType::Boolean, HirType::Boolean) => {
            if logic || equality {
                return Ok(HirType::Boolean);
            }
        },
        _ => {
            if equality && left.same_as(right) {
                return Ok(HirType::Boolean);
            }
        },
    }
    let mut m = owned("Type mismatch in binary operation: ");
    let l = left.debug_text();
    append(&mut m, l.as_str());
    append(&mut m, " ");
    append(&mut m, binary_op_name(op));
    append(&mut m, " ");
    let rt = right.debug_text();
    append(&mut m, rt.as_str());
    Err(semantic_error(m))
}

/// Type check a unary operation.
pub fn check_unary_op_type(op: HirUnaryOp, operand: &HirType) -> (r: OvieResult<HirType>)
    ensures
        match unary_type(op, operand@) {
            Ok(t) => r matches Ok(x) && x@ == t,
            Err(e) => r matches Err(x) && x@ == e,
        },
{
    match (op, operand) {
        (HirUnaryOp::Not, HirType::Boolean) => Ok(HirType::Boolean),
        (HirUnaryOp::Neg, HirType::Number) => Ok(HirType::Number),
        _ => {
            let mut m = owned("Type mismatch in unary operation: ");
            append(&mut m, match op {
                HirUnaryOp::Not => "Not",
                HirUnaryOp::Neg => "Neg",
            });
            append(&mut m, " ");
            let t = operand.debug_text();
            append(&mut m, t.as_str());
            Err(semantic_error(m))
        },
    }
}

proof fn lemma_pass_items_main(b: BuilderView, s: Seq<Statement>, i: int, items: Seq<ItemView>, has_main: bool)
    requires
        0 <= i,
        has_main ==> has_main_item(items),
    ensures
        pass_items(b, s, i, items, has_main).2 ==> has_main_item(pass_items(b, s, i, items, has_main).1),
    decreases s.len() - i,
{
    if i < s.len() {
        match s[i] {
            Statement::Function { name, parameters, body } => {
                let (b1, r) = lower_function(b, name@, texts(parameters@), body@);
                match r {
                    Ok(f) => {
                        let items2 = items.push(ItemView::Function(f));
                        let m2 = has_main || name@ == "main"@;
                        if has_main {
                            let j = choose|j: int| 0 <= j < items.len() && (#[trigger] items[j] matches ItemView::Function(g) && g.is_main);
                            assert(items2[j] == items[j]);
                        }
                        if name@ == "main"@ {
                            assert(items2[items.len() as int] == ItemView::Function(f));
                        }
                        lemma_pass_items_main(b1, s, i + 1, items2, m2);
                    },
                    Err(x) => {
                        lemma_pass_items_main(with_error(b1, x), s, i + 1, items, has_main);
                    },
                }
            },
            Statement::Assignment { mutable, identifier, value } => {
                let (b1, r) = lower_global(b, identifier@, value, mutable);
                match r {
                    Ok(g) => {
                        let items2 = items.push(ItemView::Global(g));
                        if has_main {
                            let j = choose|j: int| 0 <= j < items.len() && (#[trigger] items[j] matches ItemView::Function(f) && f.is_main);
                            assert(items2[j] == items[j]);
                        }
                        lemma_pass_items_main(b1, s, i + 1, items2, has_main);
                    },
                    Err(x) => {
                        lemma_pass_items_main(with_error(b1, x), s, i + 1, items, has_main);
                    },
                }
            },
            _ => {
                lemma_pass_items_main(b, s, i + 1, items, has_main);
            },
        }
    }
}

proof fn lemma_infer_items_main(items: Seq<ItemView>, i: int, acc: Seq<ItemView>)
    requires
        0 <= i <= items.len(),
        acc.len() == i,
        forall|j: int| 0 <= j < i ==> ((#[trigger] items[j] matches ItemView::Function(f) && f.is_main) ==> (
            acc[j] matches ItemView::Function(g) && g.is_main)),
    ensures
        infer_items(items, i, acc) matches Ok(out) ==> (has_main_item(items) ==> has_main_item(out)),
    decreases items.len() - i,
{
    if i < items.len() {
        match infer_item(items[i]) {
            Err(_) => {},
            Ok(it) => {
                let acc2 = acc.push(it);
                assert forall|j: int| 0 <= j < i + 1 implies ((#[trigger] items[j] matches ItemView::Function(f)
                    && f.is_main) ==> (acc2[j] matches ItemView::Function(g) && g.is_main)) by {
                    if j < i {
                        assert(acc2[j] == acc[j]);
                    }
                }
                lemma_infer_items_main(items, i + 1, acc2);
            },
        }
    } else {
        if has_main_item(items) {
            let j = choose|j: int| 0 <= j < items.len() && (#[trigger] items[j] matches ItemView::Function(f) && f.is_main);
            assert(acc[j] matches ItemView::Function(g) && g.is_main);
        }
    }
}

/// A program the builder produces passes validation: when it records a
/// `main` function, one of its items is that function.
pub proof fn law_lowered_program_validates(b: BuilderView, s: Seq<Statement>)
    ensures
        lower_program(b, s).1 matches Ok(p) ==> has_main_item(p.items) || !p.metadata.has_main_function,
{
    let (b1, r1) = pass_types(b, s, 0, seq![]);
    if let Ok(items1) = r1 {
        let (b2, r2) = pass_signatures(b1, s, 0);
        if r2 is Ok {
            lemma_pass_items_main(b2, s, 0, items1, false);
            let (b3, items3, main3) = pass_items(b2, s, 0, items1, false);
            let (b4, items4, main4) = if !main3 && has_top_level(s) {
                let (bm, rm) = lower_main(b3, s);
                match rm {
                    Ok(f) => (bm, items3.push(ItemView::Function(f)), true),
                    Err(x) => (with_error(bm, x), items3, false),
                }
            } else {
                (b3, items3, main3)
            };
            if !main3 && has_top_level(s) {
                let (bm, rm) = lower_main(b3, s);
                if let Ok(f) = rm {
                    assert(items4[items3.len() as int] == ItemView::Function(f));
                }
            }
            assert(main4 ==> has_main_item(items4));
            lemma_infer_items_main(items4, 0, seq![]);
        }
    }
}


/// The types of binary operations, per operator: each ordering operator
/// (`<`, `<=`, `>`, `>=`) applies to two numbers exactly and gives a
/// boolean; `-`, `*`, `/`, `%` apply to two numbers exactly and give a
/// number; `+` gives a number on two numbers, a string on two strings and
/// applies to nothing else; `==` and `!=` apply to two operands of the same
/// type and give a boolean; `&&` and `||` apply to two booleans exactly and
/// give a boolean.
pub proof fn law_binary_operation_types(l: TypeView, r: TypeView)
    ensures
        binary_type(TypeView::Number, HirBinaryOp::Lt, TypeView::Number) == Ok::<TypeView, ErrorView>(TypeView::Boolean),
        binary_type(TypeView::Number, HirBinaryOp::Le, TypeView::Number) == Ok::<TypeView, ErrorView>(TypeView::Boolean),
        binary_type(TypeView::Number, HirBinaryOp::Gt, TypeView::Number) == Ok::<TypeView, ErrorView>(TypeView::Boolean),
        binary_type(TypeView::Number, HirBinaryOp::Ge, TypeView::Number) == Ok::<TypeView, ErrorView>(TypeView::Boolean),
        binary_type(l, HirBinaryOp::Lt, r) is Ok <==> (l == TypeView::Number && r == TypeView::Number),
        binary_type(l, HirBinaryOp::Le, r) is Ok <==> (l == TypeView::Number && r == TypeView::Number),
        binary_type(l, HirBinaryOp::Gt, r) is Ok <==> (l == TypeView::Number && r == TypeView::Number),
        binary_type(l, HirBinaryOp::Ge, r) is Ok <==> (l == TypeView::Number && r == TypeView::Number),
        binary_type(TypeView::Number, HirBinaryOp::Add, TypeView::Number) == Ok::<TypeView, ErrorView>(TypeView::Number),
        binary_type(TypeView::Number, HirBinaryOp::Sub, TypeView::Number) == Ok::<TypeView, ErrorView>(TypeView::Number),
        binary_type(TypeView::Number, HirBinaryOp::Mul, TypeView::Number) == Ok::<TypeView, ErrorView>(TypeView::Number),
        binary_type(TypeView::Number, HirBinaryOp::Div, TypeView::Number) == Ok::<TypeView, ErrorView>(TypeView::Number),
        binary_type(TypeView::Number, HirBinaryOp::Mod, TypeView::Number) == Ok::<TypeView, ErrorView>(TypeView::Number),
        binary_type(TypeView::String, HirBinaryOp::Add, TypeView::String) == Ok::<TypeView, ErrorView>(TypeView::String),
        binary_type(l, HirBinaryOp::Add, r) is Ok <==> ((l == TypeView::Number && r == TypeView::Number) || (l
            == TypeView::String && r == TypeView::String)),
        binary_type(l, HirBinaryOp::Sub, r) is Ok <==> (l == TypeView::Number && r == TypeView::Number),
        binary_type(l, HirBinaryOp::Mul, r) is Ok <==> (l == TypeView::Number && r == TypeView::Number),
        binary_type(l, HirBinaryOp::Div, r) is Ok <==> (l == TypeView::Number && r == TypeView::Number),
        binary_type(l, HirBinaryOp::Mod, r) is Ok <==> (l == TypeView::Number && r == TypeView::Number),
        binary_type(l, HirBinaryOp::Eq, l) == Ok::<TypeView, ErrorView>(TypeView::Boolean),
        binary_type(l, HirBinaryOp::Ne, l) == Ok::<TypeView, ErrorView>(TypeView::Boolean),
        binary_type(l, HirBinaryOp::Eq, r) is Ok <==> l == r,
        binary_type(l, HirBinaryOp::Ne, r) is Ok <==> l == r,
        binary_type(TypeView::Boolean, HirBinaryOp::And, TypeView::Boolean) == Ok::<TypeView, ErrorView>(TypeView::Boolean),
        binary_type(TypeView::Boolean, HirBinaryOp::Or, TypeView::Boolean) == Ok::<TypeView, ErrorView>(TypeView::Boolean),
        binary_type(l, HirBinaryOp::And, r) is Ok <==> (l == TypeView::Boolean && r == TypeView::Boolean),
        binary_type(l, HirBinaryOp::Or, r) is Ok <==> (l == TypeView::Boolean && r == TypeView::Boolean),
{
}


/// `!` applies to a boolean exactly and gives a boolean; unary `-` applies
/// to a number exactly and gives a number.
pub proof fn law_unary_operation_types(t: TypeView)
    ensures
        unary_type(HirUnaryOp::Not, TypeView::Boolean) == Ok::<TypeView, ErrorView>(TypeView::Boolean),
        unary_type(HirUnaryOp::Neg, TypeView::Number) == Ok::<TypeView, ErrorView>(TypeView::Number),
        unary_type(HirUnaryOp::Not, t) is Ok <==> t == TypeView::Boolean,
        unary_type(HirUnaryOp::Neg, t) is Ok <==> t == TypeView::Number,
{
}

} // verus!
