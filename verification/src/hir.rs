//! High-level intermediate representation (HIR) of Ovie programs: its
//! types, and the symbol table that resolves names through nested scopes.

use vstd::prelude::*;
use crate::error::{ErrorView, OvieError, OvieResult};
use crate::text::{append, debug_str, debug_str_text, decimal, joined, lemma_joined_push, owned, push_decimal, same_text};

pub use crate::hir_builder::HirBuilder;
pub use crate::hir_tree::{
    HirBlock, HirExpression, HirExpressionKind, HirFieldInit, HirFunction, HirGlobal, HirItem, HirLiteral, HirProgram,
    HirStatement, HirStatementKind,
};

verus! {

/// Unique identifier for HIR nodes.
pub type NodeId = u32;

/// Source location information.
#[derive(Debug, Clone, Copy, PartialEq, Eq, Structural)]
pub struct SourceSpan {
    pub start: usize,
    pub end: usize,
    pub line: u32,
    pub column: u32,
}

impl Default for SourceSpan {
    fn default() -> (r: Self)
        ensures
            r == (SourceSpan { start: 0, end: 0, line: 1, column: 1 }),
    {
        SourceSpan { start: 0, end: 0, line: 1, column: 1 }
    }
}

/// HIR binary operators.
#[derive(Debug, Clone, Copy, PartialEq, Eq, Structural)]
pub enum HirBinaryOp {
    Add,
    Sub,
    Mul,
    Div,
    Mod,
    Eq,
    Ne,
    Lt,
    Le,
    Gt,
    Ge,
    And,
    Or,
}

/// HIR unary operators.
#[derive(Debug, Clone, Copy, PartialEq, Eq, Structural)]
pub enum HirUnaryOp {
    Not,
    Neg,
}

/// HIR type system.
#[derive(Debug)]
pub enum HirType {
    /// Primitive types
    String,
    Number,
    Boolean,
    Unit,
    /// User-defined struct
    Struct(String),
    /// User-defined enum
    Enum(String),
    /// Function type
    Function { params: Vec<HirType>, return_type: Box<HirType> },
    /// Range type
    Range(Box<HirType>),
    /// Error type (for error recovery)
    Error,
    /// Inferred type (during type checking)
    Infer(u32),
}

/// A HIR type as plain values.
pub enum TypeView {
    String,
    Number,
    Boolean,
    Unit,
    Struct(Seq<char>),
    Enum(Seq<char>),
    Function(Seq<TypeView>, Box<TypeView>),
    Range(Box<TypeView>),
    Error,
    Infer(u32),
}

/// The plain value of a HIR type.
pub open spec fn type_view(t: HirType) -> TypeView
    decreases t, 0nat,
{
    match t {
        HirType::String => TypeView::String,
        HirType::Number => TypeView::Number,
        HirType::Boolean => TypeView::Boolean,
        HirType::Unit => TypeView::Unit,
        HirType::Struct(n) => TypeView::Struct(n@),
        HirType::Enum(n) => TypeView::Enum(n@),
        HirType::Function { params, return_type } => {
            proof {
                assert(decreases_to!(t => params));
                assert(decreases_to!(params => params@));
            }
            TypeView::Function(types_view(params@), Box::new(type_view(*return_type)))
        },
        HirType::Range(inner) => TypeView::Range(Box::new(type_view(*inner))),
        HirType::Error => TypeView::Error,
        HirType::Infer(n) => TypeView::Infer(n),
    }
}

/// The plain values of a sequence of HIR types.
pub open spec fn types_view(ts: Seq<HirType>) -> Seq<TypeView>
    decreases ts, ts.len(),
{
    if ts.len() == 0 {
        seq![]
    } else {
        proof {
            assert(decreases_to!(ts => ts[ts.len() - 1]));
        }
        types_view(ts.drop_last()).push(type_view(ts[ts.len() - 1]))
    }
}

/// The plain values of a sequence of types, one by one.
pub proof fn lemma_types_view(ts: Seq<HirType>)
    ensures
        types_view(ts).len() == ts.len(),
        forall|j: int| 0 <= j < ts.len() ==> #[trigger] types_view(ts)[j] == type_view(ts[j]),
    decreases ts.len(),
{
    if ts.len() > 0 {
        lemma_types_view(ts.drop_last());
    }
}

impl View for HirType {
    type V = TypeView;

    open spec fn view(&self) -> TypeView {
        type_view(*self)
    }
}

/// Whether a type is, or holds, an error type or a type still to infer.
pub open spec fn contains_error(t: TypeView) -> bool
    decreases t, 0nat,
{
    match t {
        TypeView::Error => true,
        TypeView::Infer(_) => true,
        TypeView::Function(params, ret) => any_contains_error(params) || contains_error(*ret),
        TypeView::Range(inner) => contains_error(*inner),
        _ => false,
    }
}

/// Whether one of the types is, or holds, an error type or a type still
/// to infer.
pub open spec fn any_contains_error(ps: Seq<TypeView>) -> bool
    decreases ps, ps.len(),
{
    if ps.len() == 0 {
        false
    } else {
        proof {
            assert(decreases_to!(ps => ps[ps.len() - 1]));
        }
        any_contains_error(ps.drop_last()) || contains_error(ps[ps.len() - 1])
    }
}

/// `any_contains_error` holds when some type contains an error.
pub proof fn lemma_any_contains_error(ps: Seq<TypeView>)
    ensures
        any_contains_error(ps) == exists|k: int| 0 <= k < ps.len() && #[trigger] contains_error(ps[k]),
    decreases ps.len(),
{
    if ps.len() > 0 {
        let d = ps.drop_last();
        let l = ps.len() - 1;
        lemma_any_contains_error(d);
        assert(any_contains_error(ps) == (any_contains_error(d) || contains_error(ps[l])));
        if contains_error(ps[l]) {
            assert(exists|k: int| 0 <= k < ps.len() && #[trigger] contains_error(ps[k]));
        } else if any_contains_error(d) {
            let k = choose|k: int| 0 <= k < d.len() && #[trigger] contains_error(d[k]);
            assert(d[k] == ps[k]);
            assert(exists|k: int| 0 <= k < ps.len() && #[trigger] contains_error(ps[k]));
        } else {
            assert forall|k: int| 0 <= k < ps.len() implies !#[trigger] contains_error(ps[k]) by {
                if k < l {
                    assert(d[k] == ps[k]);
                }
            }
        }
    }
}

/// The `Debug` text of a type.
pub open spec fn type_debug(t: TypeView) -> Seq<char>
    decreases t, 0nat,
{
    match t {
        TypeView::String => "String"@,
        TypeView::Number => "Number"@,
        TypeView::Boolean => "Boolean"@,
        TypeView::Unit => "Unit"@,
        TypeView::Struct(n) => "Struct("@ + debug_str_text(n) + ")"@,
        TypeView::Enum(n) => "Enum("@ + debug_str_text(n) + ")"@,
        TypeView::Function(ps, r) => "Function { params: ["@ + joined(types_debug(ps), ", "@) + "], return_type: "@
            + type_debug(*r) + " }"@,
        TypeView::Range(inner) => "Range("@ + type_debug(*inner) + ")"@,
        TypeView::Error => "Error"@,
        TypeView::Infer(n) => "Infer("@ + decimal(n as nat) + ")"@,
    }
}

/// The `Debug` texts of types, one by one.
pub open spec fn types_debug(ts: Seq<TypeView>) -> Seq<Seq<char>>
    decreases ts, ts.len(),
{
    if ts.len() == 0 {
        seq![]
    } else {
        proof {
            assert(decreases_to!(ts => ts[ts.len() - 1]));
        }
        types_debug(ts.drop_last()).push(type_debug(ts[ts.len() - 1]))
    }
}

impl HirType {
    /// A copy of this type.
    #[verifier::loop_isolation(false)]
    pub fn duplicate(&self) -> (r: Self)
        ensures
            r@ == self@,
        decreases self,
    {
        match self {
            HirType::String => HirType::String,
            HirType::Number => HirType::Number,
            HirType::Boolean => HirType::Boolean,
            HirType::Unit => HirType::Unit,
            HirType::Struct(n) => HirType::Struct(n.clone()),
            HirType::Enum(n) => HirType::Enum(n.clone()),
            HirType::Function { params, return_type } => {
                let mut ps: Vec<HirType> = Vec::new();
                let mut i: usize = 0;
                while i < params.len()
                    invariant
                        i <= params@.len(),
                        ps@.len() == i,
                        forall|j: int| 0 <= j < i ==> (#[trigger] ps@[j])@ == params@[j]@,
                    decreases params@.len() - i,
                {
                    proof {
                        assert(decreases_to!(params@ => params@[i as int]));
                    }
                    ps.push(params[i].duplicate());
                    i = i + 1;
                }
                let r = HirType::Function { params: ps, return_type: Box::new((**return_type).duplicate()) };
                proof {
                    lemma_types_view(ps@);
                    lemma_types_view(params@);
                    assert(types_view(ps@) =~= types_view(params@));
                }
                r
            },
            HirType::Range(inner) => HirType::Range(Box::new((**inner).duplicate())),
            HirType::Error => HirType::Error,
            HirType::Infer(n) => HirType::Infer(*n),
        }
    }

    /// Whether two types are the same.
    #[verifier::loop_isolation(false)]
    pub fn same_as(&self, other: &HirType) -> (r: bool)
        ensures
            r == (self@ == other@),
        decreases self,
    {
        match (self, other) {
            (HirType::String, HirType::String) => true,
            (HirType::Number, HirType::Number) => true,
            (HirType::Boolean, HirType::Boolean) => true,
            (HirType::Unit, HirType::Unit) => true,
            (HirType::Struct(a), HirType::Struct(b)) => same_text(a.as_str(), b.as_str()),
            (HirType::Enum(a), HirType::Enum(b)) => same_text(a.as_str(), b.as_str()),
            (HirType::Function { params: pa, return_type: ra }, HirType::Function { params: pb, return_type: rb }) => {
                proof {
                    lemma_types_view(pa@);
                    lemma_types_view(pb@);
                }
                if pa.len() != pb.len() {
                    assert(types_view(pa@).len() != types_view(pb@).len());
                    return false;
                }
                let mut i: usize = 0;
                while i < pa.len()
                    invariant
                        i <= pa@.len(),
                        pa@.len() == pb@.len(),
                        forall|j: int| 0 <= j < i ==> type_view(#[trigger] pa@[j]) == type_view(pb@[j]),
                    decreases pa@.len() - i,
                {
                    proof {
                        assert(decreases_to!(pa@ => pa@[i as int]));
                    }
                    if !pa[i].same_as(&pb[i]) {
                        assert(types_view(pa@)[i as int] != types_view(pb@)[i as int]);
                        return false;
                    }
                    i = i + 1;
                }
                assert(types_view(pa@) =~= types_view(pb@));
                (**ra).same_as(&**rb)
            },
            (HirType::Range(a), HirType::Range(b)) => (**a).same_as(&**b),
            (HirType::Error, HirType::Error) => true,
            (HirType::Infer(a), HirType::Infer(b)) => *a == *b,
            _ => false,
        }
    }

    /// The `Debug` text of this type.
    #[verifier::loop_isolation(false)]
    pub fn debug_text(&self) -> (r: String)
        ensures
            r@ == type_debug(self@),
        decreases self,
    {
        match self {
            HirType::String => owned("String"),
            HirType::Number => owned("Number"),
            HirType::Boolean => owned("Boolean"),
            HirType::Unit => owned("Unit"),
            HirType::Struct(n) => {
                let mut out = owned("Struct(");
                let d = debug_str(n.as_str());
                append(&mut out, d.as_str());
                append(&mut out, ")");
                out
            },
            HirType::Enum(n) => {
                let mut out = owned("Enum(");
                let d = debug_str(n.as_str());
                append(&mut out, d.as_str());
                append(&mut out, ")");
                out
            },
            HirType::Function { params, return_type } => {
                proof {
                    lemma_types_view(params@);
                }
                let ghost ps = types_view(params@);
                let ghost parts = types_debug(ps);
                let mut out = owned("Function { params: [");
                let ghost head = out@;
                let mut i: usize = 0;
                while i < params.len()
                    invariant
                        i <= params@.len(),
                        ps.len() == params@.len(),
                        forall|j: int| 0 <= j < params@.len() ==> #[trigger] ps[j] == type_view(params@[j]),
                        out@ == head + joined(types_debug(ps.take(i as int)), ", "@),
                    decreases params@.len() - i,
                {
                    proof {
                        assert(decreases_to!(params@ => params@[i as int]));
                        assert(ps.take(i + 1).drop_last() =~= ps.take(i as int));
                        lemma_joined_push(types_debug(ps.take(i as int)), ", "@, type_debug(ps[i as int]));
                    }
                    if i > 0 {
                        append(&mut out, ", ");
                    }
                    let d = params[i].debug_text();
                    append(&mut out, d.as_str());
                    i = i + 1;
                }
                assert(ps.take(i as int) =~= ps);
                append(&mut out, "], return_type: ");
                let d = (**return_type).debug_text();
                append(&mut out, d.as_str());
                append(&mut out, " }");
                out
            },
            HirType::Range(inner) => {
                let mut out = owned("Range(");
                let d = (**inner).debug_text();
                append(&mut out, d.as_str());
                append(&mut out, ")");
                out
            },
            HirType::Error => owned("Error"),
            HirType::Infer(n) => {
                let mut out = owned("Infer(");
                push_decimal(&mut out, *n as u64);
                append(&mut out, ")");
                out
            },
        }
    }

    /// Whether this type is, or holds, an error type or a type still to
    /// infer.
    #[verifier::loop_isolation(false)]
    pub fn contains_error(&self) -> (r: bool)
        ensures
            r == contains_error(self@),
        decreases self,
    {
        match self {
            HirType::Error => true,
            HirType::Infer(_) => true,
            HirType::Function { params, return_type } => {
                proof {
                    lemma_types_view(params@);
                    lemma_any_contains_error(types_view(params@));
                }
                let ghost ps = types_view(params@);
                assert(self@ == TypeView::Function(ps, Box::new(type_view(**return_type))));
                let mut i: usize = 0;
                while i < params.len()
                    invariant
                        i <= params@.len(),
                        ps.len() == params@.len(),
                        forall|j: int| 0 <= j < params@.len() ==> #[trigger] ps[j] == type_view(params@[j]),
                        forall|j: int| 0 <= j < i ==> !contains_error(#[trigger] ps[j]),
                    decreases params@.len() - i,
                {
                    if params[i].contains_error() {
                        assert(contains_error(ps[i as int]));
                        return true;
                    }
                    i = i + 1;
                }
                (**return_type).contains_error()
            },
            HirType::Range(inner) => (**inner).contains_error(),
            _ => false,
        }
    }
}


/// Function parameter with type information.
#[derive(Debug)]
pub struct HirParameter {
    pub name: String,
    pub param_type: HirType,
    pub span: SourceSpan,
}

/// HIR struct definition.
#[derive(Debug)]
pub struct HirStruct {
    pub id: NodeId,
    pub name: String,
    pub fields: Vec<HirField>,
    pub span: SourceSpan,
}

/// Struct field with type information.
#[derive(Debug)]
pub struct HirField {
    pub name: String,
    pub field_type: HirType,
    pub span: SourceSpan,
}

/// HIR enum definition.
#[derive(Debug)]
pub struct HirEnum {
    pub id: NodeId,
    pub name: String,
    pub variants: Vec<HirVariant>,
    pub span: SourceSpan,
}

/// Enum variant with optional data type.
#[derive(Debug)]
pub struct HirVariant {
    pub name: String,
    pub data_type: Option<HirType>,
    pub span: SourceSpan,
}

/// HIR place (assignable location).
#[derive(Debug)]
pub struct HirPlace {
    pub kind: HirPlaceKind,
    pub place_type: HirType,
    pub span: SourceSpan,
}

/// HIR place kinds.
#[derive(Debug)]
pub enum HirPlaceKind {
    /// Local variable
    Local(String),
    /// Field access
    Field { object: Box<HirPlace>, field: String },
}

/// HIR metadata.
#[derive(Debug, Clone)]
pub struct HirMetadata {
    pub source_file: String,
    pub compiler_version: String,
    pub has_main_function: bool,
    pub error_count: usize,
    pub warning_count: usize,
}

/// Symbol information.
#[derive(Debug)]
pub struct SymbolInfo {
    pub symbol_type: HirType,
    pub is_mutable: bool,
    pub is_function: bool,
    pub span: SourceSpan,
}

/// Symbol information as plain values.
pub struct SymbolInfoView {
    pub symbol_type: TypeView,
    pub is_mutable: bool,
    pub is_function: bool,
    pub span: SourceSpan,
}

impl View for SymbolInfo {
    type V = SymbolInfoView;

    open spec fn view(&self) -> SymbolInfoView {
        SymbolInfoView {
            symbol_type: self.symbol_type@,
            is_mutable: self.is_mutable,
            is_function: self.is_function,
            span: self.span,
        }
    }
}

impl SymbolInfo {
    /// A copy of this symbol information.
    pub fn duplicate(&self) -> (r: Self)
        ensures
            r@ == self@,
    {
        SymbolInfo {
            symbol_type: self.symbol_type.duplicate(),
            is_mutable: self.is_mutable,
            is_function: self.is_function,
            span: self.span,
        }
    }
}

/// A scope of the symbol table: its symbols, each name once, and the
/// scope that encloses it.
#[derive(Debug)]
pub struct Scope {
    symbols: Vec<(String, SymbolInfo)>,
    parent: Option<usize>,
}

/// A scope as plain values.
pub struct ScopeView {
    pub symbols: Seq<(Seq<char>, SymbolInfoView)>,
    pub parent: Option<usize>,
}

impl View for Scope {
    type V = ScopeView;

    closed spec fn view(&self) -> ScopeView {
        ScopeView {
            symbols: self.symbols@.map_values(|e: (String, SymbolInfo)| (e.0@, e.1@)),
            parent: self.parent,
        }
    }
}

impl Scope {
    /// A copy of this scope.
    fn duplicate(&self) -> (r: Self)
        ensures
            r@ == self@,
    {
        let mut symbols: Vec<(String, SymbolInfo)> = Vec::new();
        let mut i: usize = 0;
        while i < self.symbols.len()
            invariant
                i <= self.symbols@.len(),
                symbols@.len() == i,
                forall|j: int|
                    0 <= j < i ==> (#[trigger] symbols@[j]).0@ == self.symbols@[j].0@ && symbols@[j].1@
                        == self.symbols@[j].1@,
            decreases self.symbols@.len() - i,
        {
            symbols.push((self.symbols[i].0.clone(), self.symbols[i].1.duplicate()));
            i = i + 1;
        }
        let r = Scope { symbols, parent: self.parent };
        assert(r@.symbols =~= self@.symbols);
        r
    }

    /// An empty scope with no enclosing scope.
    fn new() -> (r: Self)
        ensures
            r@ == (ScopeView { symbols: seq![], parent: None }),
    {
        let r = Scope { symbols: Vec::new(), parent: None };
        assert(r@.symbols =~= Seq::<(Seq<char>, SymbolInfoView)>::empty());
        r
    }
}

/// The information of `name` among the symbols of a scope.
pub open spec fn find_symbol(syms: Seq<(Seq<char>, SymbolInfoView)>, name: Seq<char>) -> Option<SymbolInfoView>
    decreases syms.len(),
{
    if syms.len() == 0 {
        None
    } else if syms[0].0 == name {
        Some(syms[0].1)
    } else {
        find_symbol(syms.drop_first(), name)
    }
}

/// Symbol table state as plain values: the scopes and the current one.
pub struct SymbolTableView {
    pub scopes: Seq<ScopeView>,
    pub current: usize,
}

/// The information of `name` seen from scope `idx`: its own symbols
/// first, then those of the scopes that enclose it.
pub open spec fn resolve(scopes: Seq<ScopeView>, idx: int, name: Seq<char>) -> Option<SymbolInfoView>
    decreases idx,
{
    if idx < 0 || idx >= scopes.len() {
        None
    } else {
        match find_symbol(scopes[idx].symbols, name) {
            Some(info) => Some(info),
            None => match scopes[idx].parent {
                Some(p) => if p < idx {
                    resolve(scopes, p as int, name)
                } else {
                    None
                },
                None => None,
            },
        }
    }
}

/// The table after entering a new scope inside the current one.
pub open spec fn entered(t: SymbolTableView) -> SymbolTableView {
    SymbolTableView {
        scopes: t.scopes.push(ScopeView { symbols: seq![], parent: Some(t.current) }),
        current: t.scopes.len() as usize,
    }
}

/// The table after leaving the current scope for the one enclosing it
/// (unchanged at the outermost scope).
pub open spec fn exited(t: SymbolTableView) -> SymbolTableView {
    SymbolTableView {
        scopes: t.scopes,
        current: match t.scopes[t.current as int].parent {
            Some(p) => p,
            None => t.current,
        },
    }
}

/// The table after adding `name` to the current scope.
pub open spec fn inserted(t: SymbolTableView, name: Seq<char>, info: SymbolInfoView) -> SymbolTableView {
    SymbolTableView {
        scopes: t.scopes.update(
            t.current as int,
            ScopeView {
                symbols: t.scopes[t.current as int].symbols.push((name, info)),
                parent: t.scopes[t.current as int].parent,
            },
        ),
        current: t.current,
    }
}

/// The error of a name defined twice in one scope.
pub open spec fn duplicate_symbol_error(name: Seq<char>) -> ErrorView {
    ErrorView::SemanticError(1, 1, "Symbol '"@ + name + "' already defined in current scope"@)
}

/// The error of a name that no scope defines.
pub open spec fn unknown_symbol_error(name: Seq<char>) -> ErrorView {
    ErrorView::SemanticError(1, 1, "Symbol '"@ + name + "' not found"@)
}

/// A well-formed table: at least one scope, the current one among them,
/// each scope enclosed by an earlier one, and each name once in a scope.
pub open spec fn table_wf(t: SymbolTableView) -> bool {
    &&& t.scopes.len() >= 1
    &&& t.current < t.scopes.len()
    &&& forall|i: int| 0 <= i < t.scopes.len() ==> match (#[trigger] t.scopes[i]).parent {
        Some(p) => p < i,
        None => true,
    }
}

/// Symbol table for name resolution through nested scopes.
#[derive(Debug)]
pub struct SymbolTable {
    scopes: Vec<Scope>,
    current_scope: usize,
}

impl View for SymbolTable {
    type V = SymbolTableView;

    closed spec fn view(&self) -> SymbolTableView {
        SymbolTableView { scopes: self.scopes@.map_values(|s: Scope| s@), current: self.current_scope }
    }
}

impl SymbolTable {
    #[verifier::type_invariant]
    spec fn well_formed(self) -> bool {
        table_wf(self@)
    }

    /// Create a new symbol table with one, outermost, scope.
    pub fn new() -> (r: Self)
        ensures
            r@ == (SymbolTableView { scopes: seq![ScopeView { symbols: seq![], parent: None }], current: 0 }),
    {
        let r = SymbolTable { scopes: vec![Scope::new()], current_scope: 0 };
        assert(r@.scopes =~= seq![ScopeView { symbols: seq![], parent: None }]);
        r
    }


    /// A copy of this table.
    pub fn duplicate(&self) -> (r: Self)
        ensures
            r@ == self@,
    {
        proof {
            use_type_invariant(self);
        }
        let mut scopes: Vec<Scope> = Vec::new();
        let mut i: usize = 0;
        while i < self.scopes.len()
            invariant
                i <= self.scopes@.len(),
                scopes@.len() == i,
                forall|j: int| 0 <= j < i ==> (#[trigger] scopes@[j])@ == self.scopes@[j]@,
            decreases self.scopes@.len() - i,
        {
            scopes.push(self.scopes[i].duplicate());
            i = i + 1;
        }
        assert(scopes@.map_values(|s: Scope| s@) =~= self.scopes@.map_values(|s: Scope| s@));
        SymbolTable { scopes, current_scope: self.current_scope }
    }

    /// The number of scopes.
    pub fn scope_count(&self) -> (r: usize)
        ensures
            r == self@.scopes.len(),
    {
        self.scopes.len()
    }

    /// The table is well formed.
    pub fn is_well_formed(&self) -> (r: bool)
        ensures
            r,
            table_wf(self@),
    {
        proof {
            use_type_invariant(self);
        }
        true
    }

    /// Enter a new scope inside the current one.
    pub fn enter_scope(&mut self)
        ensures
            final(self)@ == entered(old(self)@),
    {
        proof {
            use_type_invariant(&*self);
        }
        let ghost old_view = self@;
        let mut t = SymbolTable::new();
        std::mem::swap(&mut t, self);
        proof {
            use_type_invariant(&t);
        }
        let SymbolTable { scopes: mut scopes, current_scope: parent } = t;
        scopes.push(Scope { symbols: Vec::new(), parent: Some(parent) });
        let n = scopes.len() - 1;
        assert(scopes@[n as int]@.symbols =~= Seq::<(Seq<char>, SymbolInfoView)>::empty());
        assert(scopes@.map_values(|s: Scope| s@) =~= entered(old_view).scopes);
        *self = SymbolTable { scopes, current_scope: n };
    }

    /// Exit the current scope for the one enclosing it; at the outermost
    /// scope nothing changes.
    pub fn exit_scope(&mut self)
        ensures
            final(self)@ == exited(old(self)@),
    {
        proof {
            use_type_invariant(&*self);
        }
        let parent = self.scopes[self.current_scope].parent;
        assert(parent == self@.scopes[self.current_scope as int].parent);
        match parent {
            Some(p) => {
                self.current_scope = p;
            },
            None => {},
        }
    }

    /// Insert a symbol into the current scope; a name that the current
    /// scope already holds is an error and changes nothing.
    pub fn insert(&mut self, name: String, info: SymbolInfo) -> (r: OvieResult<()>)
        ensures
            find_symbol(old(self)@.scopes[old(self)@.current as int].symbols, name@) is Some ==> {
                &&& r is Err
                &&& r->Err_0@ == duplicate_symbol_error(name@)
                &&& final(self)@ == old(self)@
            },
            find_symbol(old(self)@.scopes[old(self)@.current as int].symbols, name@) is None ==> {
                &&& r is Ok
                &&& final(self)@ == inserted(old(self)@, name@, info@)
            },
    {
        proof {
            use_type_invariant(&*self);
        }
        let cur = self.current_scope;
        let ghost syms = self@.scopes[cur as int].symbols;
        assert(syms.skip(0) =~= syms);
        let mut i: usize = 0;
        while i < self.scopes[cur].symbols.len()
            invariant
                cur == self.current_scope,
                cur < self.scopes@.len(),
                syms == self@.scopes[cur as int].symbols,
                syms.len() == self.scopes@[cur as int].symbols@.len(),
                forall|j: int| 0 <= j < syms.len() ==> (#[trigger] syms[j]).0 == self.scopes@[cur as int].symbols@[j].0@,
                i <= syms.len(),
                find_symbol(syms, name@) == find_symbol(syms.skip(i as int), name@),
            decreases syms.len() - i,
        {
            assert(syms.skip(i as int).drop_first() =~= syms.skip(i + 1));
            assert(syms.skip(i as int)[0] == syms[i as int]);
            if self.scopes[cur].symbols[i].0 == name {
                let mut message = owned("Symbol '");
                append(&mut message, name.as_str());
                append(&mut message, "' already defined in current scope");
                return Err(OvieError::semantic_error(1, 1, message));
            }
            i = i + 1;
        }
        assert(syms.skip(i as int) =~= Seq::<(Seq<char>, SymbolInfoView)>::empty());
        let ghost old_view = self@;
        let mut t = SymbolTable::new();
        std::mem::swap(&mut t, self);
        proof {
            use_type_invariant(&t);
        }
        let SymbolTable { scopes: mut scopes, current_scope: _ } = t;
        let mut scope = scopes.remove(cur);
        let ghost before = scope@;
        scope.symbols.push((name, info));
        assert(scope@.symbols =~= before.symbols.push((name@, info@)));
        scopes.insert(cur, scope);
        assert(scopes@.map_values(|s: Scope| s@) =~= inserted(old_view, name@, info@).scopes);
        *self = SymbolTable { scopes, current_scope: cur };
        Ok(())
    }

    /// Look up a symbol from the current scope outwards.
    pub fn lookup(&self, name: &str) -> (r: OvieResult<SymbolInfo>)
        ensures
            match resolve(self@.scopes, self@.current as int, name@) {
                Some(info) => r is Ok && r->Ok_0@ == info,
                None => r is Err && r->Err_0@ == unknown_symbol_error(name@),
            },
    {
        proof {
            use_type_invariant(self);
        }
        let ghost scopes = self@.scopes;
        let mut current = self.current_scope;
        loop
            invariant
                scopes == self@.scopes,
                table_wf(self@),
                current < scopes.len(),
                resolve(scopes, current as int, name@) == resolve(scopes, self@.current as int, name@),
            decreases current,
        {
            let ghost syms = scopes[current as int].symbols;
            assert(scopes[current as int] == self.scopes@[current as int]@);
            assert(syms.skip(0) =~= syms);
            let mut i: usize = 0;
            while i < self.scopes[current].symbols.len()
                invariant
                    scopes == self@.scopes,
                    current < scopes.len(),
                    syms == scopes[current as int].symbols,
                    resolve(scopes, current as int, name@) == resolve(scopes, self@.current as int, name@),
                    current < self.scopes@.len(),
                    syms == self.scopes@[current as int]@.symbols,
                    syms.len() == self.scopes@[current as int].symbols@.len(),
                    forall|j: int| 0 <= j < syms.len() ==> (#[trigger] syms[j]) == (
                        self.scopes@[current as int].symbols@[j].0@,
                        self.scopes@[current as int].symbols@[j].1@,
                    ),
                    i <= syms.len(),
                    find_symbol(syms, name@) == find_symbol(syms.skip(i as int), name@),
                decreases syms.len() - i,
            {
                assert(syms.skip(i as int).drop_first() =~= syms.skip(i + 1));
                assert(syms.skip(i as int)[0] == syms[i as int]);
                if same_text(self.scopes[current].symbols[i].0.as_str(), name) {
                    return Ok(self.scopes[current].symbols[i].1.duplicate());
                }
                i = i + 1;
            }
            assert(syms.skip(i as int) =~= Seq::<(Seq<char>, SymbolInfoView)>::empty());
            match self.scopes[current].parent {
                Some(p) => {
                    assert(p < current);
                    current = p;
                },
                None => {
                    let mut message = owned("Symbol '");
                    append(&mut message, name);
                    append(&mut message, "' not found");
                    return Err(OvieError::semantic_error(1, 1, message));
                },
            }
        }
    }
}

/// Adding a symbol at the end of a scope: a name found before is still
/// found, and the added name is found when it was not there before.
pub proof fn lemma_find_symbol_push(syms: Seq<(Seq<char>, SymbolInfoView)>, x: (Seq<char>, SymbolInfoView), name: Seq<char>)
    ensures
        find_symbol(syms.push(x), name) == match find_symbol(syms, name) {
            Some(v) => Some(v),
            None => if x.0 == name {
                Some(x.1)
            } else {
                None
            },
        },
    decreases syms.len(),
{
    if syms.len() > 0 {
        assert(syms.push(x).drop_first() =~= syms.drop_first().push(x));
        lemma_find_symbol_push(syms.drop_first(), x, name);
    } else {
        assert(syms.push(x).drop_first() =~= syms);
    }
}

/// Resolution from scope `idx` looks only at the scopes up to `idx`.
pub proof fn lemma_resolve_prefix(a: Seq<ScopeView>, b: Seq<ScopeView>, idx: int, name: Seq<char>)
    requires
        0 <= idx < a.len(),
        idx < b.len(),
        forall|i: int| 0 <= i <= idx ==> a[i] == b[i],
    ensures
        resolve(a, idx, name) == resolve(b, idx, name),
    decreases idx,
{
    match a[idx].parent {
        Some(p) => {
            if p < idx {
                lemma_resolve_prefix(a, b, p as int, name);
            }
        },
        None => {},
    }
}

/// A symbol added to the current scope is found from there, and every
/// other name resolves as before.
pub proof fn law_lookup_after_insert(t: SymbolTableView, name: Seq<char>, info: SymbolInfoView, other: Seq<char>)
    requires
        table_wf(t),
        find_symbol(t.scopes[t.current as int].symbols, name) is None,
    ensures
        resolve(inserted(t, name, info).scopes, t.current as int, name) == Some(info),
        other != name ==> resolve(inserted(t, name, info).scopes, t.current as int, other) == resolve(
            t.scopes,
            t.current as int,
            other,
        ),
{
    let u = inserted(t, name, info);
    let c = t.current as int;
    lemma_find_symbol_push(t.scopes[c].symbols, (name, info), name);
    lemma_find_symbol_push(t.scopes[c].symbols, (name, info), other);
    match t.scopes[c].parent {
        Some(p) => {
            if p < c {
                lemma_resolve_prefix(t.scopes, u.scopes, p as int, other);
            }
        },
        None => {},
    }
}

/// Entering a scope and leaving it again restores the current scope, and
/// every name resolves as before.
pub proof fn law_exit_after_enter(t: SymbolTableView, name: Seq<char>)
    requires
        table_wf(t),
        t.scopes.len() < usize::MAX,
    ensures
        exited(entered(t)).current == t.current,
        resolve(exited(entered(t)).scopes, t.current as int, name) == resolve(t.scopes, t.current as int, name),
{
    let e = entered(t);
    assert(e.scopes[t.scopes.len() as int].parent == Some(t.current));
    lemma_resolve_prefix(t.scopes, e.scopes, t.current as int, name);
}

/// A new scope sees the names of the scope it was entered from.
pub proof fn law_enter_keeps_names_visible(t: SymbolTableView, name: Seq<char>)
    requires
        table_wf(t),
        t.scopes.len() < usize::MAX,
    ensures
        resolve(entered(t).scopes, entered(t).current as int, name) == resolve(t.scopes, t.current as int, name),
{
    let e = entered(t);
    let n = t.scopes.len() as int;
    assert(e.scopes[n].symbols =~= Seq::<(Seq<char>, SymbolInfoView)>::empty());
    lemma_resolve_prefix(t.scopes, e.scopes, t.current as int, name);
}

/// A name defined in an inner scope hides the outer one while that scope
/// is current, and the outer one is seen again once it is left.
pub proof fn law_inner_definition_shadows(t: SymbolTableView, name: Seq<char>, info: SymbolInfoView)
    requires
        table_wf(t),
        t.scopes.len() < usize::MAX,
    ensures
        find_symbol(entered(t).scopes[entered(t).current as int].symbols, name) is None,
        resolve(inserted(entered(t), name, info).scopes, entered(t).current as int, name) == Some(info),
        exited(inserted(entered(t), name, info)).current == t.current,
        resolve(exited(inserted(entered(t), name, info)).scopes, t.current as int, name) == resolve(
            t.scopes,
            t.current as int,
            name,
        ),
{
    let e = entered(t);
    let n = t.scopes.len() as int;
    assert(e.scopes[n].symbols =~= Seq::<(Seq<char>, SymbolInfoView)>::empty());
    assert(table_wf(e));
    law_lookup_after_insert(e, name, info, name);
    let u = inserted(e, name, info);
    assert(u.scopes[n].parent == Some(t.current));
    lemma_resolve_prefix(t.scopes, u.scopes, t.current as int, name);
}

/// The table after inserting each of `items` in order, as `insert` does:
/// an item whose name the current scope already holds changes nothing.
pub open spec fn inserted_each(t: SymbolTableView, items: Seq<(Seq<char>, SymbolInfoView)>) -> SymbolTableView
    decreases items.len(),
{
    if items.len() == 0 {
        t
    } else {
        let u = inserted_each(t, items.drop_last());
        let (n, info) = items.last();
        if find_symbol(u.scopes[u.current as int].symbols, n) is None {
            inserted(u, n, info)
        } else {
            u
        }
    }
}

/// Inserting changes only the current scope's symbols.
pub proof fn lemma_inserted_each_frame(t: SymbolTableView, items: Seq<(Seq<char>, SymbolInfoView)>)
    requires
        table_wf(t),
    ensures
        inserted_each(t, items).current == t.current,
        inserted_each(t, items).scopes.len() == t.scopes.len(),
        forall|i: int| 0 <= i < t.scopes.len() && i != t.current ==> inserted_each(t, items).scopes[i] == t.scopes[i],
        inserted_each(t, items).scopes[t.current as int].parent == t.scopes[t.current as int].parent,
        table_wf(inserted_each(t, items)),
    decreases items.len(),
{
    if items.len() > 0 {
        lemma_inserted_each_frame(t, items.drop_last());
        let u = inserted_each(t, items.drop_last());
        let r = inserted_each(t, items);
        assert forall|i: int| 0 <= i < r.scopes.len() implies match (#[trigger] r.scopes[i]).parent {
            Some(p) => p < i,
            None => true,
        } by {
            assert(r.scopes[i].parent == u.scopes[i].parent);
        }
    }
}

/// Entering a scope, inserting any number of symbols and leaving it again
/// restores the current scope, and every name resolves as it did before.
pub proof fn law_scope_restored(t: SymbolTableView, items: Seq<(Seq<char>, SymbolInfoView)>, name: Seq<char>)
    requires
        table_wf(t),
        t.scopes.len() < usize::MAX,
    ensures
        exited(inserted_each(entered(t), items)).current == t.current,
        resolve(exited(inserted_each(entered(t), items)).scopes, t.current as int, name) == resolve(
            t.scopes,
            t.current as int,
            name,
        ),
{
    let e = entered(t);
    let n = t.scopes.len() as int;
    assert(table_wf(e));
    lemma_inserted_each_frame(e, items);
    let u = inserted_each(e, items);
    assert(u.scopes[n].parent == Some(t.current));
    assert forall|i: int| 0 <= i <= t.current implies t.scopes[i] == u.scopes[i] by {
        assert(u.scopes[i] == e.scopes[i]);
    }
    lemma_resolve_prefix(t.scopes, u.scopes, t.current as int, name);
}

/// A name that no scope holds is found from no scope.
pub proof fn law_never_inserted_not_found(t: SymbolTableView, idx: int, name: Seq<char>)
    requires
        forall|i: int| 0 <= i < t.scopes.len() ==> #[trigger] find_symbol(t.scopes[i].symbols, name) is None,
    ensures
        resolve(t.scopes, idx, name) is None,
    decreases idx,
{
    if 0 <= idx < t.scopes.len() {
        assert(find_symbol(t.scopes[idx].symbols, name) is None);
        match t.scopes[idx].parent {
            Some(p) => {
                if p < idx {
                    law_never_inserted_not_found(t, p as int, name);
                }
            },
            None => {},
        }
    }
}

/// Type definition information: the fields of a struct with their types,
/// or the variants of an enum with their data types.
#[derive(Debug)]
pub enum TypeInfo {
    Struct { fields: Vec<(String, HirType)> },
    Enum { variants: Vec<(String, Option<HirType>)> },
}

/// Type definition information as plain values.
pub enum TypeInfoView {
    Struct(Seq<(Seq<char>, TypeView)>),
    Enum(Seq<(Seq<char>, Option<TypeView>)>),
}

/// The plain value of an optional type.
pub open spec fn opt_type_view(t: Option<HirType>) -> Option<TypeView> {
    match t {
        Some(x) => Some(x@),
        None => None,
    }
}

impl View for TypeInfo {
    type V = TypeInfoView;

    open spec fn view(&self) -> TypeInfoView {
        match self {
            TypeInfo::Struct { fields } => TypeInfoView::Struct(
                fields@.map_values(|f: (String, HirType)| (f.0@, f.1@)),
            ),
            TypeInfo::Enum { variants } => TypeInfoView::Enum(
                variants@.map_values(|v: (String, Option<HirType>)| (v.0@, opt_type_view(v.1))),
            ),
        }
    }
}


impl TypeInfo {
    /// A copy of this definition.
    pub fn duplicate(&self) -> (r: Self)
        ensures
            r@ == self@,
    {
        match self {
            TypeInfo::Struct { fields } => {
                let mut out: Vec<(String, HirType)> = Vec::new();
                let mut i: usize = 0;
                while i < fields.len()
                    invariant
                        i <= fields@.len(),
                        out@.len() == i,
                        forall|j: int|
                            0 <= j < i ==> (#[trigger] out@[j]).0@ == fields@[j].0@ && out@[j].1@ == fields@[j].1@,
                    decreases fields@.len() - i,
                {
                    out.push((fields[i].0.clone(), fields[i].1.duplicate()));
                    i = i + 1;
                }
                let r = TypeInfo::Struct { fields: out };
                assert(out@.map_values(|f: (String, HirType)| (f.0@, f.1@)) =~= fields@.map_values(
                    |f: (String, HirType)| (f.0@, f.1@),
                ));
                r
            },
            TypeInfo::Enum { variants } => {
                let mut out: Vec<(String, Option<HirType>)> = Vec::new();
                let mut i: usize = 0;
                while i < variants.len()
                    invariant
                        i <= variants@.len(),
                        out@.len() == i,
                        forall|j: int|
                            0 <= j < i ==> (#[trigger] out@[j]).0@ == variants@[j].0@ && opt_type_view(out@[j].1)
                                == opt_type_view(variants@[j].1),
                    decreases variants@.len() - i,
                {
                    let d = match &variants[i].1 {
                        Some(t) => Some(t.duplicate()),
                        None => None,
                    };
                    out.push((variants[i].0.clone(), d));
                    i = i + 1;
                }
                let r = TypeInfo::Enum { variants: out };
                assert(out@.map_values(|v: (String, Option<HirType>)| (v.0@, opt_type_view(v.1))) =~= variants@.map_values(
                    |v: (String, Option<HirType>)| (v.0@, opt_type_view(v.1)),
                ));
                r
            },
        }
    }
}

/// The first position of key `k` in an association list, from `i` on.
pub open spec fn assoc_index_from<V>(s: Seq<(Seq<char>, V)>, k: Seq<char>, i: int) -> Option<int>
    decreases s.len() - i,
{
    if i < 0 || i >= s.len() {
        None
    } else if s[i].0 == k {
        Some(i)
    } else {
        assoc_index_from(s, k, i + 1)
    }
}

/// The value of key `k` in an association list.
pub open spec fn assoc_get<V>(s: Seq<(Seq<char>, V)>, k: Seq<char>) -> Option<V> {
    match assoc_index_from(s, k, 0) {
        Some(i) => Some(s[i].1),
        None => None,
    }
}

/// The association list with key `k` set to `v`: its entry replaced, or
/// added at the end.
pub open spec fn assoc_put<V>(s: Seq<(Seq<char>, V)>, k: Seq<char>, v: V) -> Seq<(Seq<char>, V)> {
    match assoc_index_from(s, k, 0) {
        Some(i) => s.update(i, (k, v)),
        None => s.push((k, v)),
    }
}

/// The position found from `i` on is at or after `i`, and holds the key.
pub proof fn lemma_assoc_index_from<V>(s: Seq<(Seq<char>, V)>, k: Seq<char>, i: int)
    requires
        0 <= i,
    ensures
        match assoc_index_from(s, k, i) {
            Some(j) => i <= j < s.len() && s[j].0 == k,
            None => forall|j: int| i <= j < s.len() ==> s[j].0 != k,
        },
    decreases s.len() - i,
{
    if i < s.len() && s[i].0 != k {
        lemma_assoc_index_from(s, k, i + 1);
    }
}

/// Type table for type definitions, each name once.
#[derive(Debug)]
pub struct TypeTable {
    types: Vec<(String, TypeInfo)>,
}

impl View for TypeTable {
    type V = Seq<(Seq<char>, TypeInfoView)>;

    closed spec fn view(&self) -> Seq<(Seq<char>, TypeInfoView)> {
        self.types@.map_values(|e: (String, TypeInfo)| (e.0@, e.1@))
    }
}

impl TypeTable {
    /// Create a new, empty, type table.
    pub fn new() -> (r: Self)
        ensures
            r@ == Seq::<(Seq<char>, TypeInfoView)>::empty(),
    {
        let r = TypeTable { types: Vec::new() };
        assert(r@ =~= Seq::<(Seq<char>, TypeInfoView)>::empty());
        r
    }

    /// The position of the definition of `name`, if any.
    pub fn position(&self, name: &str) -> (r: Option<usize>)
        ensures
            r matches Some(i) ==> assoc_index_from(self@, name@, 0) == Some(i as int) && i < self@.len()
                && self@[i as int].0 == name@,
            r is None ==> assoc_index_from(self@, name@, 0) is None,
    {
        proof {
            lemma_assoc_index_from(self@, name@, 0);
        }
        let ghost v = self@;
        let mut i: usize = 0;
        while i < self.types.len()
            invariant
                v == self@,
                v.len() == self.types@.len(),
                i <= v.len(),
                assoc_index_from(v, name@, 0) == assoc_index_from(v, name@, i as int),
            decreases v.len() - i,
        {
            assert(v[i as int].0 == self.types@[i as int].0@);
            if same_text(self.types[i].0.as_str(), name) {
                return Some(i);
            }
            i = i + 1;
        }
        None
    }

    /// Whether `name` is defined.
    pub fn contains(&self, name: &str) -> (r: bool)
        ensures
            r == (assoc_index_from(self@, name@, 0) is Some),
    {
        self.position(name).is_some()
    }

    /// The definition of `name`, if any.
    pub fn get(&self, name: &str) -> (r: Option<&TypeInfo>)
        ensures
            match assoc_get(self@, name@) {
                Some(info) => r matches Some(x) && x@ == info,
                None => r is None,
            },
    {
        match self.position(name) {
            Some(i) => {
                assert(self@[i as int].1 == self.types@[i as int].1@);
                Some(&self.types[i].1)
            },
            None => None,
        }
    }

    /// Define `name` as `info`, replacing an earlier definition.
    pub fn insert(&mut self, name: String, info: TypeInfo)
        ensures
            final(self)@ == assoc_put(old(self)@, name@, info@),
    {
        let ghost before = self@;
        match self.position(name.as_str()) {
            Some(i) => {
                self.types.set(i, (name, info));
                assert(self@ =~= before.update(i as int, (self.types@[i as int].0@, self.types@[i as int].1@)));
            },
            None => {
                self.types.push((name, info));
                assert(self@ =~= before.push((self.types@.last().0@, self.types@.last().1@)));
            },
        }
    }


    /// A copy of this table.
    pub fn duplicate(&self) -> (r: Self)
        ensures
            r@ == self@,
    {
        let mut types: Vec<(String, TypeInfo)> = Vec::new();
        let mut i: usize = 0;
        while i < self.types.len()
            invariant
                i <= self.types@.len(),
                types@.len() == i,
                forall|j: int|
                    0 <= j < i ==> (#[trigger] types@[j]).0@ == self.types@[j].0@ && types@[j].1@
                        == self.types@[j].1@,
            decreases self.types@.len() - i,
        {
            types.push((self.types[i].0.clone(), self.types[i].1.duplicate()));
            i = i + 1;
        }
        let r = TypeTable { types };
        assert(r@ =~= self@);
        r
    }

    /// The number of type definitions.
    pub fn len(&self) -> (r: usize)
        ensures
            r == self@.len(),
    {
        self.types.len()
    }

    /// The definitions, in order.
    pub fn entries(&self) -> (r: &Vec<(String, TypeInfo)>)
        ensures
            r@.map_values(|e: (String, TypeInfo)| (e.0@, e.1@)) == self@,
    {
        &self.types
    }
}

} // verus!
