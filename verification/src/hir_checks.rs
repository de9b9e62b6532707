//! Checks of a HIR program: the presence of `main`, the invariants that
//! every name and type is resolved, and a readable report.

use vstd::prelude::*;
use crate::ast::InvariantError;
use crate::error::{ErrorView, OvieError, OvieResult};
use crate::hir::{contains_error, type_debug, HirPlace, HirPlaceKind, HirType, TypeInfo, TypeInfoView, TypeView};
use crate::hir_tree::{
    expr_view, exprs_view, inits_view, lemma_exprs_view, lemma_inits_view, lemma_stmts_view, opt_expr_view,
    place_view, stmts_view, ExprKindView, ExprView, FieldInitView, HirBlock, HirExpression, HirExpressionKind,
    HirItem, HirProgram, HirStatement, HirStatementKind, ItemView, MemberView, PlaceKindView, PlaceView, StmtKindView,
    StmtView, items_view, ProgramView,
};
use crate::text::{append, decimal, owned, push_decimal};

verus! {

/// An invariant error as plain values: its message and location.
pub type InvariantView = (Seq<char>, Option<Seq<char>>);

/// The plain value of an invariant error.
pub open spec fn invariant_view(e: InvariantError) -> InvariantView {
    (
        e.message@,
        match e.location {
            Some(l) => Some(l@),
            None => None,
        },
    )
}

/// Whether some item is the `main` function.
pub open spec fn has_main_item(items: Seq<ItemView>) -> bool {
    exists|i: int| 0 <= i < items.len() && (#[trigger] items[i] matches ItemView::Function(f) && f.is_main)
}

/// Whether a type is the error type or a type still to infer.
pub open spec fn unresolved(t: TypeView) -> bool {
    t is Error || t is Infer
}

/// The first invariant broken in an expression: its own type unresolved,
/// then those of its parts, in order.
pub open spec fn expr_inv(e: ExprView) -> Option<InvariantView>
    decreases e, 0nat,
{
    if unresolved(e.ty) {
        Some(("Expression has unresolved type"@, Some("expression:"@ + decimal(e.id as nat))))
    } else {
        match e.kind {
            ExprKindView::Binary(l, _, r) => match expr_inv(*l) {
                Some(x) => Some(x),
                None => expr_inv(*r),
            },
            ExprKindView::Unary(_, o) => expr_inv(*o),
            ExprKindView::Call(_, args) => {
                proof {
                    assert(decreases_to!(e => e.kind));
                }
                exprs_inv(args, 0)
            },
            ExprKindView::FieldAccess(o, _) => expr_inv(*o),
            ExprKindView::StructInit(_, inits) => {
                proof {
                    assert(decreases_to!(e => e.kind));
                }
                inits_inv(inits, 0)
            },
            ExprKindView::Range(a, b) => match expr_inv(*a) {
                Some(x) => Some(x),
                None => expr_inv(*b),
            },
            _ => None,
        }
    }
}

/// The first invariant broken in the expressions `s[i..]`.
pub open spec fn exprs_inv(s: Seq<ExprView>, i: int) -> Option<InvariantView>
    decreases s, s.len() - i,
{
    if i < 0 || i >= s.len() {
        None
    } else {
        proof {
            assert(decreases_to!(s => s[i]));
        }
        match expr_inv(s[i]) {
            Some(x) => Some(x),
            None => exprs_inv(s, i + 1),
        }
    }
}

/// The first invariant broken in the field initializers `s[i..]`.
pub open spec fn inits_inv(s: Seq<FieldInitView>, i: int) -> Option<InvariantView>
    decreases s, s.len() - i,
{
    if i < 0 || i >= s.len() {
        None
    } else {
        proof {
            assert(decreases_to!(s => s[i]));
            assert(decreases_to!(s[i] => s[i].value));
        }
        match expr_inv(s[i].value) {
            Some(x) => Some(x),
            None => inits_inv(s, i + 1),
        }
    }
}

/// The first invariant broken in an optional expression.
pub open spec fn opt_inv(e: Option<ExprView>) -> Option<InvariantView> {
    match e {
        Some(x) => expr_inv(x),
        None => None,
    }
}

/// The first invariant broken in a place: its type unresolved, then that
/// of the object it is a field of.
pub open spec fn place_inv(p: PlaceView) -> Option<InvariantView>
    decreases p,
{
    if unresolved(p.ty) {
        Some(("Place has unresolved type"@, Some("place"@)))
    } else {
        match p.kind {
            PlaceKindView::Field(o, _) => place_inv(*o),
            PlaceKindView::Local(_) => None,
        }
    }
}

/// The first invariant broken in a statement.
pub open spec fn stmt_inv(st: StmtView) -> Option<InvariantView>
    decreases st, 0nat,
{
    match st.kind {
        StmtKindView::Local(_, t, _, init) => if unresolved(t) {
            Some(("Local variable has unresolved type"@, Some("statement:"@ + decimal(st.id as nat))))
        } else {
            opt_inv(init)
        },
        StmtKindView::Assign(p, e) => match place_inv(p) {
            Some(x) => Some(x),
            None => expr_inv(e),
        },
        StmtKindView::Expression(e) => expr_inv(e),
        StmtKindView::Print(e) => expr_inv(e),
        StmtKindView::Return(e) => opt_inv(e),
        StmtKindView::If(c, t, e) => match expr_inv(c) {
            Some(x) => Some(x),
            None => {
                proof {
                    assert(decreases_to!(st => st.kind));
                }
                match stmts_inv(t.statements, 0) {
                    Some(x) => Some(x),
                    None => match e {
                        Some(eb) => stmts_inv(eb.statements, 0),
                        None => None,
                    },
                }
            },
        },
        StmtKindView::While(c, b) => match expr_inv(c) {
            Some(x) => Some(x),
            None => {
                proof {
                    assert(decreases_to!(st => st.kind));
                }
                stmts_inv(b.statements, 0)
            },
        },
        StmtKindView::For(_, it, b) => match expr_inv(it) {
            Some(x) => Some(x),
            None => {
                proof {
                    assert(decreases_to!(st => st.kind));
                }
                stmts_inv(b.statements, 0)
            },
        },
    }
}

/// The first invariant broken in the statements `s[i..]`.
pub open spec fn stmts_inv(s: Seq<StmtView>, i: int) -> Option<InvariantView>
    decreases s, s.len() - i,
{
    if i < 0 || i >= s.len() {
        None
    } else {
        proof {
            assert(decreases_to!(s => s[i]));
        }
        match stmt_inv(s[i]) {
            Some(x) => Some(x),
            None => stmts_inv(s, i + 1),
        }
    }
}

/// The first member from `i` on whose type is unresolved.
pub open spec fn first_unresolved(ms: Seq<MemberView>, i: int) -> Option<int>
    decreases ms.len() - i,
{
    if i < 0 || i >= ms.len() {
        None
    } else if ms[i].ty matches Some(t) && unresolved(t) {
        Some(i)
    } else {
        first_unresolved(ms, i + 1)
    }
}

/// The first invariant broken in an item.
pub open spec fn item_inv(it: ItemView) -> Option<InvariantView> {
    match it {
        ItemView::Function(f) => if unresolved(f.ret) {
            Some(("Function '"@ + f.name + "' has unresolved return type"@, Some("function:"@ + f.name)))
        } else {
            match first_unresolved(f.params, 0) {
                Some(j) => Some(
                    (
                        "Parameter '"@ + f.params[j].name + "' has unresolved type"@,
                        Some("function:"@ + f.name + ":param:"@ + f.params[j].name),
                    ),
                ),
                None => stmts_inv(f.body.statements, 0),
            }
        },
        ItemView::Struct(d) => match first_unresolved(d.members, 0) {
            Some(j) => Some(
                (
                    "Struct field '"@ + d.members[j].name + "' has unresolved type"@,
                    Some("struct:"@ + d.name + ":field:"@ + d.members[j].name),
                ),
            ),
            None => None,
        },
        ItemView::Enum(d) => match first_unresolved(d.members, 0) {
            Some(j) => Some(
                (
                    "Enum variant '"@ + d.members[j].name + "' has unresolved data type"@,
                    Some("enum:"@ + d.name + ":variant:"@ + d.members[j].name),
                ),
            ),
            None => None,
        },
        ItemView::Global(g) => if unresolved(g.ty) {
            Some(("Global '"@ + g.name + "' has unresolved type"@, Some("global:"@ + g.name)))
        } else {
            opt_inv(g.init)
        },
    }
}

/// The first invariant broken in the items `i..`.
pub open spec fn items_inv(items: Seq<ItemView>, i: int) -> Option<InvariantView>
    decreases items.len() - i,
{
    if i < 0 || i >= items.len() {
        None
    } else {
        match item_inv(items[i]) {
            Some(x) => Some(x),
            None => items_inv(items, i + 1),
        }
    }
}

/// The first member from `i` on whose type contains an unresolved type.
pub open spec fn first_erroneous(ms: Seq<MemberView>, i: int) -> Option<int>
    decreases ms.len() - i,
{
    if i < 0 || i >= ms.len() {
        None
    } else if ms[i].ty matches Some(t) && contains_error(t) {
        Some(i)
    } else {
        first_erroneous(ms, i + 1)
    }
}

/// The first item from `i` on whose types contain an unresolved type.
pub open spec fn items_error_types(items: Seq<ItemView>, i: int) -> Option<InvariantView>
    decreases items.len() - i,
{
    if i < 0 || i >= items.len() {
        None
    } else {
        match items[i] {
            ItemView::Function(f) => if contains_error(f.ret) {
                Some(("Function '"@ + f.name + "' contains unresolved types"@, Some("function:"@ + f.name)))
            } else {
                items_error_types(items, i + 1)
            },
            ItemView::Struct(d) => if first_erroneous(d.members, 0) is Some {
                Some(("Struct '"@ + d.name + "' contains unresolved types"@, Some("struct:"@ + d.name)))
            } else {
                items_error_types(items, i + 1)
            },
            ItemView::Enum(d) => if first_erroneous(d.members, 0) is Some {
                Some(("Enum '"@ + d.name + "' contains unresolved types"@, Some("enum:"@ + d.name)))
            } else {
                items_error_types(items, i + 1)
            },
            ItemView::Global(g) => if contains_error(g.ty) {
                Some(("Global '"@ + g.name + "' contains unresolved types"@, Some("global:"@ + g.name)))
            } else {
                items_error_types(items, i + 1)
            },
        }
    }
}


/// The text of a boolean.
pub open spec fn bool_text(b: bool) -> Seq<char> {
    if b {
        "true"@
    } else {
        "false"@
    }
}

/// The number of functions (kind 0), structs (1), enums (2) or globals
/// (3) among the items.
pub open spec fn count_items(items: Seq<ItemView>, kind: int) -> nat
    decreases items.len(),
{
    if items.len() == 0 {
        0
    } else {
        count_items(items.drop_last(), kind) + if item_kind(items.last()) == kind {
            1nat
        } else {
            0nat
        }
    }
}

/// The kind of an item: 0 for a function, 1 for a struct, 2 for an enum,
/// 3 for a global.
pub open spec fn item_kind(it: ItemView) -> int {
    match it {
        ItemView::Function(_) => 0,
        ItemView::Struct(_) => 1,
        ItemView::Enum(_) => 2,
        ItemView::Global(_) => 3,
    }
}

/// The report line of a type definition.
pub open spec fn type_def_line(name: Seq<char>, info: TypeInfoView) -> Seq<char> {
    match info {
        TypeInfoView::Struct(fs) => "Struct "@ + name + ": "@ + decimal(fs.len()) + " fields\n"@,
        TypeInfoView::Enum(vs) => "Enum "@ + name + ": "@ + decimal(vs.len()) + " variants\n"@,
    }
}

/// The report lines of the type definitions, in order.
pub open spec fn type_defs_text(types: Seq<(Seq<char>, TypeInfoView)>) -> Seq<char>
    decreases types.len(),
{
    if types.len() == 0 {
        seq![]
    } else {
        type_defs_text(types.drop_last()) + type_def_line(types.last().0, types.last().1)
    }
}

/// The report line of a struct field or enum variant.
pub open spec fn member_line(m: MemberView) -> Seq<char> {
    "    "@ + m.name + ": "@ + match m.ty {
        Some(t) => type_debug(t),
        None => "()"@,
    } + "\n"@
}

/// The report lines of struct fields or enum variants, in order.
pub open spec fn member_lines(ms: Seq<MemberView>) -> Seq<char>
    decreases ms.len(),
{
    if ms.len() == 0 {
        seq![]
    } else {
        member_lines(ms.drop_last()) + member_line(ms.last())
    }
}

/// The report details of an item.
pub open spec fn item_text(it: ItemView) -> Seq<char> {
    match it {
        ItemView::Function(f) => "Function: "@ + f.name + " (ID: "@ + decimal(f.id as nat) + ")\n  Is Main: "@
            + bool_text(f.is_main) + "\n  Parameters: "@ + decimal(f.params.len()) + "\n  Return Type: "@
            + type_debug(f.ret) + "\n  Statements: "@ + decimal(f.body.statements.len()) + "\n\n"@,
        ItemView::Struct(d) => "Struct: "@ + d.name + " (ID: "@ + decimal(d.id as nat) + ")\n  Fields: "@ + decimal(
            d.members.len(),
        ) + "\n"@ + member_lines(d.members) + "\n"@,
        ItemView::Enum(d) => "Enum: "@ + d.name + " (ID: "@ + decimal(d.id as nat) + ")\n  Variants: "@ + decimal(
            d.members.len(),
        ) + "\n"@ + member_lines(d.members) + "\n"@,
        ItemView::Global(g) => "Global: "@ + g.name + " (ID: "@ + decimal(g.id as nat) + ")\n  Type: "@ + type_debug(
            g.ty,
        ) + "\n  Mutable: "@ + bool_text(g.is_mutable) + "\n  Has Initializer: "@ + bool_text(g.init is Some)
            + "\n\n"@,
    }
}

/// The report details of the items, in order.
pub open spec fn items_text(items: Seq<ItemView>) -> Seq<char>
    decreases items.len(),
{
    if items.len() == 0 {
        seq![]
    } else {
        items_text(items.drop_last()) + item_text(items.last())
    }
}

/// The human-readable report of a HIR program: its metadata, the number
/// of items of each kind, the number of scopes, the type definitions and
/// the details of each item.
pub open spec fn hir_report(p: ProgramView) -> Seq<char> {
    "=== HIR Program Analysis Report ===\n\nSource File: "@ + p.metadata.source_file + "\nCompiler Version: "@
        + p.metadata.compiler_version + "\nHas Main Function: "@ + bool_text(p.metadata.has_main_function)
        + "\nErrors: "@ + decimal(p.metadata.error_count) + "\nWarnings: "@ + decimal(p.metadata.warning_count)
        + "\n\nFunctions: "@ + decimal(count_items(p.items, 0)) + "\nStructs: "@ + decimal(count_items(p.items, 1))
        + "\nEnums: "@ + decimal(count_items(p.items, 2)) + "\nGlobals: "@ + decimal(count_items(p.items, 3))
        + "\n\n=== Symbol Table ===\nScopes: "@ + decimal(p.symbols.scopes.len()) + "\n\n=== Type Definitions ===\n"@
        + type_defs_text(p.types) + "\n=== Item Details ===\n\n"@ + items_text(p.items)
}

/// An invariant result agrees with its plain value.
pub open spec fn inv_agrees(r: Result<(), InvariantError>, x: Option<InvariantView>) -> bool {
    match x {
        Some(v) => r is Err && invariant_view(r->Err_0) == v,
        None => r is Ok,
    }
}

fn broken(message: String, location: String) -> (r: InvariantError)
    ensures
        invariant_view(r) == (message@, Some(location@)),
{
    InvariantError { message, location: Some(location) }
}

fn is_unresolved(t: &HirType) -> (r: bool)
    ensures
        r == unresolved(t@),
{
    match t {
        HirType::Error => true,
        HirType::Infer(_) => true,
        _ => false,
    }
}

/// Check the invariants of an expression.
#[verifier::loop_isolation(false)]
fn check_expression(e: &HirExpression) -> (r: Result<(), InvariantError>)
    ensures
        inv_agrees(r, expr_inv(e@)),
    decreases e,
{
    if is_unresolved(&e.expr_type) {
        let mut l = owned("expression:");
        push_decimal(&mut l, e.id as u64);
        return Err(broken(owned("Expression has unresolved type"), l));
    }
    match &e.kind {
        HirExpressionKind::Binary { left, right, .. } => {
            match check_expression(&**left) {
                Err(x) => return Err(x),
                Ok(()) => {},
            }
            check_expression(&**right)
        },
        HirExpressionKind::Unary { operand, .. } => check_expression(&**operand),
        HirExpressionKind::Call { arguments, .. } => {
            let ghost av = exprs_view(arguments@);
            proof {
                lemma_exprs_view(arguments@);
            }
            let mut i: usize = 0;
            while i < arguments.len()
                invariant
                    av == exprs_view(arguments@),
                    i <= arguments@.len(),
                    exprs_inv(av, 0) == exprs_inv(av, i as int),
                decreases arguments@.len() - i,
            {
                proof {
                    assert(decreases_to!(arguments@ => arguments@[i as int]));
                }
                match check_expression(&arguments[i]) {
                    Err(x) => return Err(x),
                    Ok(()) => {},
                }
                i = i + 1;
            }
            Ok(())
        },
        HirExpressionKind::FieldAccess { object, .. } => check_expression(&**object),
        HirExpressionKind::StructInit { fields, .. } => {
            let ghost fv = inits_view(fields@);
            proof {
                lemma_inits_view(fields@);
            }
            let mut i: usize = 0;
            while i < fields.len()
                invariant
                    fv == inits_view(fields@),
                    i <= fields@.len(),
                    inits_inv(fv, 0) == inits_inv(fv, i as int),
                decreases fields@.len() - i,
            {
                proof {
                    assert(decreases_to!(fields@ => fields@[i as int]));
                    assert(decreases_to!(fields@[i as int] => fields@[i as int].value));
                }
                match check_expression(&fields[i].value) {
                    Err(x) => return Err(x),
                    Ok(()) => {},
                }
                i = i + 1;
            }
            Ok(())
        },
        HirExpressionKind::Range { start, end } => {
            match check_expression(&**start) {
                Err(x) => return Err(x),
                Ok(()) => {},
            }
            check_expression(&**end)
        },
        _ => Ok(()),
    }
}

fn check_optional(e: &Option<HirExpression>) -> (r: Result<(), InvariantError>)
    ensures
        inv_agrees(r, opt_inv(opt_expr_view(*e))),
{
    match e {
        Some(x) => check_expression(x),
        None => Ok(()),
    }
}

/// Check the invariants of a place.
fn check_place(p: &HirPlace) -> (r: Result<(), InvariantError>)
    ensures
        inv_agrees(r, place_inv(place_view(*p))),
    decreases p,
{
    if is_unresolved(&p.place_type) {
        return Err(broken(owned("Place has unresolved type"), owned("place")));
    }
    match &p.kind {
        HirPlaceKind::Field { object, .. } => check_place(&**object),
        HirPlaceKind::Local(_) => Ok(()),
    }
}

/// Check the invariants of a statement.
fn check_statement(st: &HirStatement) -> (r: Result<(), InvariantError>)
    ensures
        inv_agrees(r, stmt_inv(st@)),
    decreases st, 0nat,
{
    match &st.kind {
        HirStatementKind::Local { var_type, initializer, .. } => {
            if is_unresolved(var_type) {
                let mut l = owned("statement:");
                push_decimal(&mut l, st.id as u64);
                return Err(broken(owned("Local variable has unresolved type"), l));
            }
            check_optional(initializer)
        },
        HirStatementKind::Assign { target, value } => {
            match check_place(target) {
                Err(x) => return Err(x),
                Ok(()) => {},
            }
            check_expression(value)
        },
        HirStatementKind::Expression(e) => check_expression(e),
        HirStatementKind::Print(e) => check_expression(e),
        HirStatementKind::Return(e) => check_optional(e),
        HirStatementKind::If { condition, then_block, else_block } => {
            match check_expression(condition) {
                Err(x) => return Err(x),
                Ok(()) => {},
            }
            match check_statements(&then_block.statements) {
                Err(x) => return Err(x),
                Ok(()) => {},
            }
            match else_block {
                Some(b) => {
                    proof {
                        assert(decreases_to!(*st => st.kind));
                    }
                    check_statements(&b.statements)
                },
                None => Ok(()),
            }
        },
        HirStatementKind::While { condition, body } => {
            match check_expression(condition) {
                Err(x) => return Err(x),
                Ok(()) => {},
            }
            check_statements(&body.statements)
        },
        HirStatementKind::For { iterable, body, .. } => {
            match check_expression(iterable) {
                Err(x) => return Err(x),
                Ok(()) => {},
            }
            check_statements(&body.statements)
        },
    }
}

/// Check the invariants of statements, in order.
#[verifier::loop_isolation(false)]
fn check_statements(statements: &Vec<HirStatement>) -> (r: Result<(), InvariantError>)
    ensures
        inv_agrees(r, stmts_inv(stmts_view(statements@), 0)),
    decreases statements@, 1nat,
{
    let ghost sv = stmts_view(statements@);
    proof {
        lemma_stmts_view(statements@);
    }
    let mut i: usize = 0;
    while i < statements.len()
        invariant
            sv == stmts_view(statements@),
            i <= statements@.len(),
            stmts_inv(sv, 0) == stmts_inv(sv, i as int),
        decreases statements@.len() - i,
    {
        proof {
            assert(decreases_to!(statements@ => statements@[i as int]));
        }
        match check_statement(&statements[i]) {
            Err(x) => return Err(x),
            Ok(()) => {},
        }
        i = i + 1;
    }
    Ok(())
}

/// Check the invariants of an item.
#[verifier::loop_isolation(false)]
fn check_item(item: &HirItem) -> (r: Result<(), InvariantError>)
    ensures
        inv_agrees(r, item_inv(item@)),
{
    match item {
        HirItem::Function(f) => {
            if is_unresolved(&f.return_type) {
                let mut m = owned("Function '");
                append(&mut m, f.name.as_str());
                append(&mut m, "' has unresolved return type");
                let mut l = owned("function:");
                append(&mut l, f.name.as_str());
                return Err(broken(m, l));
            }
            let ghost ms = crate::hir_tree::params_view(f.parameters@);
            let mut i: usize = 0;
            while i < f.parameters.len()
                invariant
                    ms == crate::hir_tree::params_view(f.parameters@),
                    i <= f.parameters@.len(),
                    first_unresolved(ms, 0) == first_unresolved(ms, i as int),
                decreases f.parameters@.len() - i,
            {
                if is_unresolved(&f.parameters[i].param_type) {
                    let mut m = owned("Parameter '");
                    append(&mut m, f.parameters[i].name.as_str());
                    append(&mut m, "' has unresolved type");
                    let mut l = owned("function:");
                    append(&mut l, f.name.as_str());
                    append(&mut l, ":param:");
                    append(&mut l, f.parameters[i].name.as_str());
                    return Err(broken(m, l));
                }
                i = i + 1;
            }
            check_statements(&f.body.statements)
        },
        HirItem::Struct(d) => {
            let ghost ms = crate::hir_tree::fields_view(d.fields@);
            let mut i: usize = 0;
            while i < d.fields.len()
                invariant
                    ms == crate::hir_tree::fields_view(d.fields@),
                    i <= d.fields@.len(),
                    first_unresolved(ms, 0) == first_unresolved(ms, i as int),
                decreases d.fields@.len() - i,
            {
                if is_unresolved(&d.fields[i].field_type) {
                    let mut m = owned("Struct field '");
                    append(&mut m, d.fields[i].name.as_str());
                    append(&mut m, "' has unresolved type");
                    let mut l = owned("struct:");
                    append(&mut l, d.name.as_str());
                    append(&mut l, ":field:");
                    append(&mut l, d.fields[i].name.as_str());
                    return Err(broken(m, l));
                }
                i = i + 1;
            }
            Ok(())
        },
        HirItem::Enum(d) => {
            let ghost ms = crate::hir_tree::variants_view(d.variants@);
            let mut i: usize = 0;
            while i < d.variants.len()
                invariant
                    ms == crate::hir_tree::variants_view(d.variants@),
                    i <= d.variants@.len(),
                    first_unresolved(ms, 0) == first_unresolved(ms, i as int),
                decreases d.variants@.len() - i,
            {
                match &d.variants[i].data_type {
                    Some(t) => {
                        if is_unresolved(t) {
                            let mut m = owned("Enum variant '");
                            append(&mut m, d.variants[i].name.as_str());
                            append(&mut m, "' has unresolved data type");
                            let mut l = owned("enum:");
                            append(&mut l, d.name.as_str());
                            append(&mut l, ":variant:");
                            append(&mut l, d.variants[i].name.as_str());
                            return Err(broken(m, l));
                        }
                    },
                    None => {},
                }
                i = i + 1;
            }
            Ok(())
        },
        HirItem::Global(g) => {
            if is_unresolved(&g.global_type) {
                let mut m = owned("Global '");
                append(&mut m, g.name.as_str());
                append(&mut m, "' has unresolved type");
                let mut l = owned("global:");
                append(&mut l, g.name.as_str());
                return Err(broken(m, l));
            }
            check_optional(&g.initializer)
        },
    }
}

/// Whether some member's type contains an unresolved type.
fn members_erroneous_fields(fields: &Vec<crate::hir::HirField>) -> (r: bool)
    ensures
        r == (first_erroneous(crate::hir_tree::fields_view(fields@), 0) is Some),
{
    let ghost ms = crate::hir_tree::fields_view(fields@);
    let mut i: usize = 0;
    while i < fields.len()
        invariant
            ms == crate::hir_tree::fields_view(fields@),
            i <= fields@.len(),
            first_erroneous(ms, 0) == first_erroneous(ms, i as int),
        decreases fields@.len() - i,
    {
        if fields[i].field_type.contains_error() {
            return true;
        }
        i = i + 1;
    }
    false
}

/// Whether some variant's data type contains an unresolved type.
fn members_erroneous_variants(variants: &Vec<crate::hir::HirVariant>) -> (r: bool)
    ensures
        r == (first_erroneous(crate::hir_tree::variants_view(variants@), 0) is Some),
{
    let ghost ms = crate::hir_tree::variants_view(variants@);
    let mut i: usize = 0;
    while i < variants.len()
        invariant
            ms == crate::hir_tree::variants_view(variants@),
            i <= variants@.len(),
            first_erroneous(ms, 0) == first_erroneous(ms, i as int),
        decreases variants@.len() - i,
    {
        match &variants[i].data_type {
            Some(t) => {
                if t.contains_error() {
                    return true;
                }
            },
            None => {},
        }
        i = i + 1;
    }
    false
}


fn push_bool(out: &mut String, b: bool)
    ensures
        final(out)@ == old(out)@ + bool_text(b),
{
    if b {
        append(out, "true");
    } else {
        append(out, "false");
    }
}

fn push_member(out: &mut String, name: &str, ty: Option<&HirType>)
    ensures
        final(out)@ == old(out)@ + member_line(
            MemberView {
                name: name@,
                ty: match ty {
                    Some(t) => Some(t@),
                    None => None,
                },
                span: crate::hir_builder::no_span(),
            },
        ),
{
    let ghost start = out@;
    append(out, "    ");
    append(out, name);
    append(out, ": ");
    match ty {
        Some(t) => {
            let d = t.debug_text();
            append(out, d.as_str());
        },
        None => append(out, "()"),
    }
    append(out, "\n");
    assert(out@ =~= start + member_line(
        MemberView {
            name: name@,
            ty: match ty {
                Some(t) => Some(t@),
                None => None,
            },
            span: crate::hir_builder::no_span(),
        },
    ));
}

fn push_field_lines(out: &mut String, fields: &Vec<crate::hir::HirField>)
    ensures
        final(out)@ == old(out)@ + member_lines(crate::hir_tree::fields_view(fields@)),
{
    let ghost ms = crate::hir_tree::fields_view(fields@);
    let ghost start = out@;
    let mut i: usize = 0;
    while i < fields.len()
        invariant
            ms == crate::hir_tree::fields_view(fields@),
            i <= fields@.len(),
            out@ == start + member_lines(ms.take(i as int)),
        decreases fields@.len() - i,
    {
        push_member(out, fields[i].name.as_str(), Some(&fields[i].field_type));
        assert(ms.take(i + 1).drop_last() =~= ms.take(i as int));
        assert(member_line(ms.take(i + 1).last()) == member_line(ms[i as int]));
        assert(out@ =~= start + member_lines(ms.take(i + 1)));
        i = i + 1;
    }
    assert(ms.take(i as int) =~= ms);
}

fn push_variant_lines(out: &mut String, variants: &Vec<crate::hir::HirVariant>)
    ensures
        final(out)@ == old(out)@ + member_lines(crate::hir_tree::variants_view(variants@)),
{
    let ghost ms = crate::hir_tree::variants_view(variants@);
    let ghost start = out@;
    let mut i: usize = 0;
    while i < variants.len()
        invariant
            ms == crate::hir_tree::variants_view(variants@),
            i <= variants@.len(),
            out@ == start + member_lines(ms.take(i as int)),
        decreases variants@.len() - i,
    {
        let ty = match &variants[i].data_type {
            Some(t) => Some(t),
            None => None,
        };
        push_member(out, variants[i].name.as_str(), ty);
        assert(ms.take(i + 1).drop_last() =~= ms.take(i as int));
        assert(member_line(ms.take(i + 1).last()) == member_line(ms[i as int]));
        assert(out@ =~= start + member_lines(ms.take(i + 1)));
        i = i + 1;
    }
    assert(ms.take(i as int) =~= ms);
}

#[verifier::spinoff_prover]
#[verifier::rlimit(30)]
fn push_item(out: &mut String, item: &HirItem)
    ensures
        final(out)@ == old(out)@ + item_text(item@),
{
    let ghost start = out@;
    match item {
        HirItem::Function(f) => {
            append(out, "Function: ");
            append(out, f.name.as_str());
            append(out, " (ID: ");
            push_decimal(out, f.id as u64);
            append(out, ")\n  Is Main: ");
            push_bool(out, f.is_main);
            append(out, "\n  Parameters: ");
            push_decimal(out, f.parameters.len() as u64);
            append(out, "\n  Return Type: ");
            let d = f.return_type.debug_text();
            append(out, d.as_str());
            append(out, "\n  Statements: ");
            proof {
                lemma_stmts_view(f.body.statements@);
            }
            push_decimal(out, f.body.statements.len() as u64);
            append(out, "\n\n");
            assert(out@ =~= start + item_text(item@));
        },
        HirItem::Struct(d) => {
            append(out, "Struct: ");
            append(out, d.name.as_str());
            append(out, " (ID: ");
            push_decimal(out, d.id as u64);
            append(out, ")\n  Fields: ");
            push_decimal(out, d.fields.len() as u64);
            append(out, "\n");
            push_field_lines(out, &d.fields);
            append(out, "\n");
            assert(out@ =~= start + item_text(item@));
        },
        HirItem::Enum(d) => {
            append(out, "Enum: ");
            append(out, d.name.as_str());
            append(out, " (ID: ");
            push_decimal(out, d.id as u64);
            append(out, ")\n  Variants: ");
            push_decimal(out, d.variants.len() as u64);
            append(out, "\n");
            push_variant_lines(out, &d.variants);
            append(out, "\n");
            assert(out@ =~= start + item_text(item@));
        },
        HirItem::Global(g) => {
            append(out, "Global: ");
            append(out, g.name.as_str());
            append(out, " (ID: ");
            push_decimal(out, g.id as u64);
            append(out, ")\n  Type: ");
            let d = g.global_type.debug_text();
            append(out, d.as_str());
            append(out, "\n  Mutable: ");
            push_bool(out, g.is_mutable);
            append(out, "\n  Has Initializer: ");
            push_bool(out, g.initializer.is_some());
            append(out, "\n\n");
            assert(out@ =~= start + item_text(item@));
        },
    }
}

fn push_type_def(out: &mut String, name: &str, info: &TypeInfo)
    ensures
        final(out)@ == old(out)@ + type_def_line(name@, info@),
{
    let ghost start = out@;
    match info {
        TypeInfo::Struct { fields } => {
            append(out, "Struct ");
            append(out, name);
            append(out, ": ");
            push_decimal(out, fields.len() as u64);
            append(out, " fields\n");
        },
        TypeInfo::Enum { variants } => {
            append(out, "Enum ");
            append(out, name);
            append(out, ": ");
            push_decimal(out, variants.len() as u64);
            append(out, " variants\n");
        },
    }
    assert(out@ =~= start + type_def_line(name@, info@));
}

fn contains_unresolved(kind: &str, name: &str, location: &str) -> (r: InvariantError)
    ensures
        invariant_view(r) == (kind@ + name@ + "' contains unresolved types"@, Some(location@ + name@)),
{
    let mut m = owned(kind);
    append(&mut m, name);
    append(&mut m, "' contains unresolved types");
    let mut l = owned(location);
    append(&mut l, name);
    broken(m, l)
}

impl HirProgram {
    /// Generate the human-readable HIR report.
    pub fn generate_hir_report(&self) -> (r: OvieResult<String>)
        ensures
            r is Ok && r->Ok_0@ == hir_report(self@),
    {
        let ghost p = self@;
        let mut fns: usize = 0;
        let mut structs: usize = 0;
        let mut enums: usize = 0;
        let mut globals: usize = 0;
        let mut i: usize = 0;
        while i < self.items.len()
            invariant
                p == self@,
                i <= self.items@.len(),
                fns == count_items(p.items.take(i as int), 0),
                structs == count_items(p.items.take(i as int), 1),
                enums == count_items(p.items.take(i as int), 2),
                globals == count_items(p.items.take(i as int), 3),
                fns + structs + enums + globals == i,
            decreases self.items@.len() - i,
        {
            assert(p.items.take(i + 1).drop_last() =~= p.items.take(i as int));
            match &self.items[i] {
                HirItem::Function(_) => fns = fns + 1,
                HirItem::Struct(_) => structs = structs + 1,
                HirItem::Enum(_) => enums = enums + 1,
                HirItem::Global(_) => globals = globals + 1,
            }
            i = i + 1;
        }
        assert(p.items.take(i as int) =~= p.items);
        let mut out = owned("=== HIR Program Analysis Report ===\n\nSource File: ");
        append(&mut out, self.metadata.source_file.as_str());
        append(&mut out, "\nCompiler Version: ");
        append(&mut out, self.metadata.compiler_version.as_str());
        append(&mut out, "\nHas Main Function: ");
        push_bool(&mut out, self.metadata.has_main_function);
        append(&mut out, "\nErrors: ");
        push_decimal(&mut out, self.metadata.error_count as u64);
        append(&mut out, "\nWarnings: ");
        push_decimal(&mut out, self.metadata.warning_count as u64);
        append(&mut out, "\n\nFunctions: ");
        push_decimal(&mut out, fns as u64);
        append(&mut out, "\nStructs: ");
        push_decimal(&mut out, structs as u64);
        append(&mut out, "\nEnums: ");
        push_decimal(&mut out, enums as u64);
        append(&mut out, "\nGlobals: ");
        push_decimal(&mut out, globals as u64);
        append(&mut out, "\n\n=== Symbol Table ===\nScopes: ");
        push_decimal(&mut out, self.symbol_table.scope_count() as u64);
        append(&mut out, "\n\n=== Type Definitions ===\n");
        let ghost head = out@;
        let entries = self.type_table.entries();
        let ghost tv = p.types;
        let mut k: usize = 0;
        while k < entries.len()
            invariant
                tv == entries@.map_values(|e: (String, TypeInfo)| (e.0@, e.1@)),
                k <= entries@.len(),
                out@ == head + type_defs_text(tv.take(k as int)),
            decreases entries@.len() - k,
        {
            push_type_def(&mut out, entries[k].0.as_str(), &entries[k].1);
            assert(tv.take(k + 1).drop_last() =~= tv.take(k as int));
            assert(out@ =~= head + type_defs_text(tv.take(k + 1)));
            k = k + 1;
        }
        assert(tv.take(k as int) =~= tv);
        append(&mut out, "\n=== Item Details ===\n\n");
        let ghost mid = out@;
        let mut j: usize = 0;
        while j < self.items.len()
            invariant
                p == self@,
                j <= self.items@.len(),
                out@ == mid + items_text(p.items.take(j as int)),
            decreases self.items@.len() - j,
        {
            push_item(&mut out, &self.items[j]);
            assert(p.items.take(j + 1).drop_last() =~= p.items.take(j as int));
            assert(out@ =~= mid + items_text(p.items.take(j + 1)));
            j = j + 1;
        }
        assert(p.items.take(j as int) =~= p.items);
        assert(out@ =~= hir_report(p));
        Ok(out)
    }

    /// Validate the program: a program that records a `main` function
    /// must have one among its items.
    pub fn validate(&self) -> (r: OvieResult<()>)
        ensures
            !has_main_item(self@.items) && self.metadata.has_main_function ==> r is Err && r->Err_0@
                == ErrorView::SemanticError(1, 1, "Main function not found"@),
            has_main_item(self@.items) || !self.metadata.has_main_function ==> r is Ok,
    {
        let ghost iv = self@.items;
        let mut found = false;
        let mut i: usize = 0;
        while i < self.items.len()
            invariant
                iv == items_view(self.items@),
                i <= self.items@.len(),
                !found ==> forall|j: int| 0 <= j < i ==> !(#[trigger] iv[j] matches ItemView::Function(f) && f.is_main),
                found ==> has_main_item(iv),
            decreases self.items@.len() - i,
        {
            match &self.items[i] {
                HirItem::Function(f) => {
                    if f.is_main {
                        found = true;
                        assert(iv[i as int] matches ItemView::Function(g) && g.is_main);
                    }
                },
                _ => {},
            }
            i = i + 1;
        }
        if !found && self.metadata.has_main_function {
            proof {
                reveal_strlit("Main function not found");
            }
            return Err(OvieError::semantic_error(1, 1, owned("Main function not found")));
        }
        Ok(())
    }

    /// Validate the HIR invariants: every item's names and types are
    /// resolved, the symbol table has a scope, and no type of an item
    /// contains an unresolved type.
    #[verifier::loop_isolation(false)]
    pub fn validate_invariants(&self) -> (r: Result<(), InvariantError>)
        ensures
            inv_agrees(
                r,
                match items_inv(self@.items, 0) {
                    Some(x) => Some(x),
                    None => if self@.symbols.scopes.len() == 0 {
                        Some(("HIR must have populated symbol table"@, Some("symbol_table"@)))
                    } else {
                        items_error_types(self@.items, 0)
                    },
                },
            ),
    {
        let ghost iv = self@.items;
        let mut i: usize = 0;
        while i < self.items.len()
            invariant
                iv == items_view(self.items@),
                i <= self.items@.len(),
                items_inv(iv, 0) == items_inv(iv, i as int),
            decreases self.items@.len() - i,
        {
            match check_item(&self.items[i]) {
                Err(x) => return Err(x),
                Ok(()) => {},
            }
            i = i + 1;
        }
        if self.symbol_table.scope_count() == 0 {
            return Err(broken(owned("HIR must have populated symbol table"), owned("symbol_table")));
        }
        let mut k: usize = 0;
        while k < self.items.len()
            invariant
                iv == items_view(self.items@),
                k <= self.items@.len(),
                items_error_types(iv, 0) == items_error_types(iv, k as int),
            decreases self.items@.len() - k,
        {
            match &self.items[k] {
                HirItem::Function(f) => {
                    if f.return_type.contains_error() {
                        return Err(contains_unresolved("Function '", f.name.as_str(), "function:"));
                    }
                },
                HirItem::Struct(d) => {
                    if members_erroneous_fields(&d.fields) {
                        return Err(contains_unresolved("Struct '", d.name.as_str(), "struct:"));
                    }
                },
                HirItem::Enum(d) => {
                    if members_erroneous_variants(&d.variants) {
                        return Err(contains_unresolved("Enum '", d.name.as_str(), "enum:"));
                    }
                },
                HirItem::Global(g) => {
                    if g.global_type.contains_error() {
                        return Err(contains_unresolved("Global '", g.name.as_str(), "global:"));
                    }
                },
            }
            k = k + 1;
        }
        Ok(())
    }
}

} // verus!
