//! The HIR tree: items, statements and expressions with resolved names and
//! types, and the plain values that contracts speak of.

use vstd::prelude::*;
use crate::hir::{
    types_view, HirBinaryOp, HirEnum, HirField, HirParameter, HirPlace, HirPlaceKind, HirStruct, HirType,
    HirMetadata, HirUnaryOp, HirVariant, NodeId, SourceSpan, SymbolTable, SymbolTableView, TypeInfoView, TypeTable,
    TypeView,
};

verus! {

/// HIR literal values. A number is kept as the bits of its IEEE 754
/// double.
#[derive(Debug, Clone)]
pub enum HirLiteral {
    String(String),
    Number(u64),
    Boolean(bool),
    Unit,
}

/// A literal as a plain value.
pub enum LiteralView {
    String(Seq<char>),
    Number(u64),
    Boolean(bool),
    Unit,
}

impl View for HirLiteral {
    type V = LiteralView;

    open spec fn view(&self) -> LiteralView {
        match self {
            HirLiteral::String(s) => LiteralView::String(s@),
            HirLiteral::Number(n) => LiteralView::Number(*n),
            HirLiteral::Boolean(b) => LiteralView::Boolean(*b),
            HirLiteral::Unit => LiteralView::Unit,
        }
    }
}

/// HIR expression with type information.
#[derive(Debug)]
pub struct HirExpression {
    pub id: NodeId,
    pub kind: HirExpressionKind,
    pub expr_type: HirType,
    pub span: SourceSpan,
}

/// HIR expression kinds.
#[derive(Debug)]
pub enum HirExpressionKind {
    /// Literal value
    Literal(HirLiteral),
    /// Variable reference
    Variable(String),
    /// Binary operation
    Binary { left: Box<HirExpression>, op: HirBinaryOp, right: Box<HirExpression> },
    /// Unary operation
    Unary { op: HirUnaryOp, operand: Box<HirExpression> },
    /// Function call
    Call { function: String, arguments: Vec<HirExpression> },
    /// Field access
    FieldAccess { object: Box<HirExpression>, field: String },
    /// Struct instantiation
    StructInit { struct_name: String, fields: Vec<HirFieldInit> },
    /// Range expression
    Range { start: Box<HirExpression>, end: Box<HirExpression> },
}

/// Field initializer in struct instantiation.
#[derive(Debug)]
pub struct HirFieldInit {
    pub name: String,
    pub value: HirExpression,
    pub span: SourceSpan,
}

/// An expression as plain values.
pub struct ExprView {
    pub id: u32,
    pub kind: ExprKindView,
    pub ty: TypeView,
    pub span: SourceSpan,
}

/// An expression kind as plain values.
pub enum ExprKindView {
    Literal(LiteralView),
    Variable(Seq<char>),
    Binary(Box<ExprView>, HirBinaryOp, Box<ExprView>),
    Unary(HirUnaryOp, Box<ExprView>),
    Call(Seq<char>, Seq<ExprView>),
    FieldAccess(Box<ExprView>, Seq<char>),
    StructInit(Seq<char>, Seq<FieldInitView>),
    Range(Box<ExprView>, Box<ExprView>),
}

/// A field initializer as plain values.
pub struct FieldInitView {
    pub name: Seq<char>,
    pub value: ExprView,
    pub span: SourceSpan,
}

/// The plain value of an expression.
pub open spec fn expr_view(e: HirExpression) -> ExprView
    decreases e, 0nat,
{
    ExprView {
        id: e.id,
        kind: match e.kind {
            HirExpressionKind::Literal(l) => ExprKindView::Literal(l@),
            HirExpressionKind::Variable(n) => ExprKindView::Variable(n@),
            HirExpressionKind::Binary { left, op, right } => ExprKindView::Binary(
                Box::new(expr_view(*left)),
                op,
                Box::new(expr_view(*right)),
            ),
            HirExpressionKind::Unary { op, operand } => ExprKindView::Unary(op, Box::new(expr_view(*operand))),
            HirExpressionKind::Call { function, arguments } => {
                proof {
                    assert(decreases_to!(e => e.kind));
                    assert(decreases_to!(arguments => arguments@));
                }
                ExprKindView::Call(function@, exprs_view(arguments@))
            },
            HirExpressionKind::FieldAccess { object, field } => ExprKindView::FieldAccess(
                Box::new(expr_view(*object)),
                field@,
            ),
            HirExpressionKind::StructInit { struct_name, fields } => {
                proof {
                    assert(decreases_to!(e => e.kind));
                    assert(decreases_to!(fields => fields@));
                }
                ExprKindView::StructInit(struct_name@, inits_view(fields@))
            },
            HirExpressionKind::Range { start, end } => ExprKindView::Range(
                Box::new(expr_view(*start)),
                Box::new(expr_view(*end)),
            ),
        },
        ty: e.expr_type@,
        span: e.span,
    }
}

/// The plain values of a sequence of expressions.
pub open spec fn exprs_view(s: Seq<HirExpression>) -> Seq<ExprView>
    decreases s, s.len(),
{
    if s.len() == 0 {
        seq![]
    } else {
        proof {
            assert(decreases_to!(s => s[s.len() - 1]));
        }
        exprs_view(s.drop_last()).push(expr_view(s[s.len() - 1]))
    }
}

/// The plain values of a sequence of field initializers.
pub open spec fn inits_view(s: Seq<HirFieldInit>) -> Seq<FieldInitView>
    decreases s, s.len(),
{
    if s.len() == 0 {
        seq![]
    } else {
        proof {
            assert(decreases_to!(s => s[s.len() - 1]));
        }
        inits_view(s.drop_last()).push(
            FieldInitView {
                name: s[s.len() - 1].name@,
                value: expr_view(s[s.len() - 1].value),
                span: s[s.len() - 1].span,
            },
        )
    }
}

impl View for HirExpression {
    type V = ExprView;

    open spec fn view(&self) -> ExprView {
        expr_view(*self)
    }
}

/// HIR statement with type information.
#[derive(Debug)]
pub struct HirStatement {
    pub id: NodeId,
    pub kind: HirStatementKind,
    pub span: SourceSpan,
}

/// HIR statement kinds.
#[derive(Debug)]
pub enum HirStatementKind {
    /// Local variable declaration
    Local { name: String, var_type: HirType, is_mutable: bool, initializer: Option<HirExpression> },
    /// Assignment to existing variable
    Assign { target: HirPlace, value: HirExpression },
    /// Expression statement
    Expression(HirExpression),
    /// Print statement
    Print(HirExpression),
    /// Return statement
    Return(Option<HirExpression>),
    /// If statement
    If { condition: HirExpression, then_block: HirBlock, else_block: Option<HirBlock> },
    /// While loop
    While { condition: HirExpression, body: HirBlock },
    /// For loop
    For { variable: String, iterable: HirExpression, body: HirBlock },
}

/// HIR block (sequence of statements).
#[derive(Debug)]
pub struct HirBlock {
    pub statements: Vec<HirStatement>,
    pub span: SourceSpan,
}

/// A place as plain values.
pub struct PlaceView {
    pub kind: PlaceKindView,
    pub ty: TypeView,
    pub span: SourceSpan,
}

/// A place kind as plain values.
pub enum PlaceKindView {
    Local(Seq<char>),
    Field(Box<PlaceView>, Seq<char>),
}

/// The plain value of a place.
pub open spec fn place_view(p: HirPlace) -> PlaceView
    decreases p,
{
    PlaceView {
        kind: match p.kind {
            HirPlaceKind::Local(n) => PlaceKindView::Local(n@),
            HirPlaceKind::Field { object, field } => PlaceKindView::Field(Box::new(place_view(*object)), field@),
        },
        ty: p.place_type@,
        span: p.span,
    }
}

/// A statement as plain values.
pub struct StmtView {
    pub id: u32,
    pub kind: StmtKindView,
    pub span: SourceSpan,
}

/// A block as plain values.
pub struct BlockView {
    pub statements: Seq<StmtView>,
    pub span: SourceSpan,
}

/// A statement kind as plain values.
pub enum StmtKindView {
    Local(Seq<char>, TypeView, bool, Option<ExprView>),
    Assign(PlaceView, ExprView),
    Expression(ExprView),
    Print(ExprView),
    Return(Option<ExprView>),
    If(ExprView, BlockView, Option<BlockView>),
    While(ExprView, BlockView),
    For(Seq<char>, ExprView, BlockView),
}

/// The plain value of an optional expression.
pub open spec fn opt_expr_view(e: Option<HirExpression>) -> Option<ExprView> {
    match e {
        Some(x) => Some(expr_view(x)),
        None => None,
    }
}

/// The plain value of a statement.
pub open spec fn stmt_view(s: HirStatement) -> StmtView
    decreases s, 0nat,
{
    StmtView {
        id: s.id,
        kind: match s.kind {
            HirStatementKind::Local { name, var_type, is_mutable, initializer } => StmtKindView::Local(
                name@,
                var_type@,
                is_mutable,
                opt_expr_view(initializer),
            ),
            HirStatementKind::Assign { target, value } => StmtKindView::Assign(place_view(target), expr_view(value)),
            HirStatementKind::Expression(e) => StmtKindView::Expression(expr_view(e)),
            HirStatementKind::Print(e) => StmtKindView::Print(expr_view(e)),
            HirStatementKind::Return(e) => StmtKindView::Return(opt_expr_view(e)),
            HirStatementKind::If { condition, then_block, else_block } => {
                proof {
                    assert(decreases_to!(s => s.kind));
                }
                StmtKindView::If(
                    expr_view(condition),
                    block_view(then_block),
                    match else_block {
                        Some(b) => Some(block_view(b)),
                        None => None,
                    },
                )
            },
            HirStatementKind::While { condition, body } => StmtKindView::While(expr_view(condition), block_view(body)),
            HirStatementKind::For { variable, iterable, body } => StmtKindView::For(
                variable@,
                expr_view(iterable),
                block_view(body),
            ),
        },
        span: s.span,
    }
}

/// The plain value of a block.
pub open spec fn block_view(b: HirBlock) -> BlockView
    decreases b, 1nat,
{
    proof {
        assert(decreases_to!(b.statements => b.statements@));
    }
    BlockView { statements: stmts_view(b.statements@), span: b.span }
}

/// The plain values of a sequence of statements.
pub open spec fn stmts_view(s: Seq<HirStatement>) -> Seq<StmtView>
    decreases s, s.len(),
{
    if s.len() == 0 {
        seq![]
    } else {
        proof {
            assert(decreases_to!(s => s[s.len() - 1]));
        }
        stmts_view(s.drop_last()).push(stmt_view(s[s.len() - 1]))
    }
}

impl View for HirStatement {
    type V = StmtView;

    open spec fn view(&self) -> StmtView {
        stmt_view(*self)
    }
}

impl View for HirBlock {
    type V = BlockView;

    open spec fn view(&self) -> BlockView {
        block_view(*self)
    }
}

/// HIR function with resolved names and types.
#[derive(Debug)]
pub struct HirFunction {
    pub id: NodeId,
    pub name: String,
    pub parameters: Vec<HirParameter>,
    pub return_type: HirType,
    pub body: HirBlock,
    pub span: SourceSpan,
    pub is_main: bool,
}

/// Global variable or constant.
#[derive(Debug)]
pub struct HirGlobal {
    pub id: NodeId,
    pub name: String,
    pub global_type: HirType,
    pub is_mutable: bool,
    pub initializer: Option<HirExpression>,
    pub span: SourceSpan,
}

/// Top-level items in HIR.
#[derive(Debug)]
pub enum HirItem {
    Function(HirFunction),
    Struct(HirStruct),
    Enum(HirEnum),
    Global(HirGlobal),
}

/// A parameter, a struct field or an enum variant as plain values: its
/// name, its type (if any) and its span.
pub struct MemberView {
    pub name: Seq<char>,
    pub ty: Option<TypeView>,
    pub span: SourceSpan,
}

/// A function as plain values.
pub struct FunctionView {
    pub id: u32,
    pub name: Seq<char>,
    pub params: Seq<MemberView>,
    pub ret: TypeView,
    pub body: BlockView,
    pub span: SourceSpan,
    pub is_main: bool,
}

/// A struct or enum definition as plain values.
pub struct TypeDefView {
    pub id: u32,
    pub name: Seq<char>,
    pub members: Seq<MemberView>,
    pub span: SourceSpan,
}

/// A global as plain values.
pub struct GlobalView {
    pub id: u32,
    pub name: Seq<char>,
    pub ty: TypeView,
    pub is_mutable: bool,
    pub init: Option<ExprView>,
    pub span: SourceSpan,
}

/// An item as plain values.
pub enum ItemView {
    Function(FunctionView),
    Struct(TypeDefView),
    Enum(TypeDefView),
    Global(GlobalView),
}

/// The plain values of parameters.
pub open spec fn params_view(ps: Seq<HirParameter>) -> Seq<MemberView> {
    ps.map_values(|p: HirParameter| MemberView { name: p.name@, ty: Some(p.param_type@), span: p.span })
}

/// The plain values of struct fields.
pub open spec fn fields_view(fs: Seq<HirField>) -> Seq<MemberView> {
    fs.map_values(|f: HirField| MemberView { name: f.name@, ty: Some(f.field_type@), span: f.span })
}

/// The plain values of enum variants.
pub open spec fn variants_view(vs: Seq<HirVariant>) -> Seq<MemberView> {
    vs.map_values(
        |v: HirVariant|
            MemberView {
                name: v.name@,
                ty: match v.data_type {
                    Some(t) => Some(t@),
                    None => None,
                },
                span: v.span,
            },
    )
}

/// The plain value of a function.
pub open spec fn function_view(f: HirFunction) -> FunctionView {
    FunctionView {
        id: f.id,
        name: f.name@,
        params: params_view(f.parameters@),
        ret: f.return_type@,
        body: f.body@,
        span: f.span,
        is_main: f.is_main,
    }
}

/// The plain value of an item.
pub open spec fn item_view(i: HirItem) -> ItemView {
    match i {
        HirItem::Function(f) => ItemView::Function(function_view(f)),
        HirItem::Struct(s) => ItemView::Struct(
            TypeDefView { id: s.id, name: s.name@, members: fields_view(s.fields@), span: s.span },
        ),
        HirItem::Enum(e) => ItemView::Enum(
            TypeDefView { id: e.id, name: e.name@, members: variants_view(e.variants@), span: e.span },
        ),
        HirItem::Global(g) => ItemView::Global(
            GlobalView {
                id: g.id,
                name: g.name@,
                ty: g.global_type@,
                is_mutable: g.is_mutable,
                init: opt_expr_view(g.initializer),
                span: g.span,
            },
        ),
    }
}

impl View for HirItem {
    type V = ItemView;

    open spec fn view(&self) -> ItemView {
        item_view(*self)
    }
}

/// The plain values of items.
pub open spec fn items_view(items: Seq<HirItem>) -> Seq<ItemView> {
    items.map_values(|i: HirItem| i@)
}

/// The plain values of expressions, one by one.
pub proof fn lemma_exprs_view(s: Seq<HirExpression>)
    ensures
        exprs_view(s).len() == s.len(),
        forall|j: int| 0 <= j < s.len() ==> #[trigger] exprs_view(s)[j] == expr_view(s[j]),
    decreases s.len(),
{
    if s.len() > 0 {
        lemma_exprs_view(s.drop_last());
    }
}

/// The plain values of field initializers, one by one.
pub proof fn lemma_inits_view(s: Seq<HirFieldInit>)
    ensures
        inits_view(s).len() == s.len(),
        forall|j: int|
            0 <= j < s.len() ==> #[trigger] inits_view(s)[j] == (FieldInitView {
                name: s[j].name@,
                value: expr_view(s[j].value),
                span: s[j].span,
            }),
    decreases s.len(),
{
    if s.len() > 0 {
        lemma_inits_view(s.drop_last());
    }
}

/// The plain values of statements, one by one.
pub proof fn lemma_stmts_view(s: Seq<HirStatement>)
    ensures
        stmts_view(s).len() == s.len(),
        forall|j: int| 0 <= j < s.len() ==> #[trigger] stmts_view(s)[j] == stmt_view(s[j]),
    decreases s.len(),
{
    if s.len() > 0 {
        lemma_stmts_view(s.drop_last());
    }
}

/// HIR metadata as plain values.
pub struct MetadataView {
    pub source_file: Seq<char>,
    pub compiler_version: Seq<char>,
    pub has_main_function: bool,
    pub error_count: nat,
    pub warning_count: nat,
}

impl View for HirMetadata {
    type V = MetadataView;

    open spec fn view(&self) -> MetadataView {
        MetadataView {
            source_file: self.source_file@,
            compiler_version: self.compiler_version@,
            has_main_function: self.has_main_function,
            error_count: self.error_count as nat,
            warning_count: self.warning_count as nat,
        }
    }
}

/// The HIR program: the complete program after semantic analysis.
#[derive(Debug)]
pub struct HirProgram {
    pub items: Vec<HirItem>,
    pub symbol_table: SymbolTable,
    pub type_table: TypeTable,
    pub metadata: HirMetadata,
}

/// A HIR program as plain values.
pub struct ProgramView {
    pub items: Seq<ItemView>,
    pub symbols: SymbolTableView,
    pub types: Seq<(Seq<char>, TypeInfoView)>,
    pub metadata: MetadataView,
}

impl View for HirProgram {
    type V = ProgramView;

    open spec fn view(&self) -> ProgramView {
        ProgramView {
            items: items_view(self.items@),
            symbols: self.symbol_table@,
            types: self.type_table@,
            metadata: self.metadata@,
        }
    }
}

} // verus!
