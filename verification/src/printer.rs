//! An indented, line-per-node listing of syntax trees. Each node gives one
//! line, indented by `spaces` blanks per level, followed by the lines of its
//! children one level deeper.
use vstd::prelude::*;
use crate::ast::{ActionStmt, BinOp, Decl, Expr, Field, Stmt, Value};
use crate::binding_id::BindingId;
use crate::repr::{
    binop_name, datatype_name, field_start, lemma_join_step, named, record, strings_debug, unop_name,
    write_binop_name, write_datatype_name, write_record, write_strings_debug, write_unop_name,
};
use crate::symbol::Symbol;
use crate::text::{bool_text, int_text, join, nat_text, push_char, string_views};

verus! {

/// Prints syntax trees with a fixed number of blanks per nesting level.
pub struct AstPrinter {
    spaces: usize,
}

impl AstPrinter {
    /// Blanks per nesting level.
    pub closed spec fn spaces_per_level(&self) -> nat {
        self.spaces as nat
    }
}

/// `n` blanks.
pub open spec fn blanks(n: nat) -> Seq<char> {
    Seq::new(n, |_i: int| ' ')
}

/// One output line at nesting level `ind`.
pub open spec fn line(sp: nat, ind: int, text: Seq<char>) -> Seq<char> {
    blanks((ind * sp) as nat) + text + "\n"@
}

/// Printing at nesting levels up to `depth` stays within `usize`: the level
/// itself and the number of blanks it takes.
pub open spec fn fits(sp: nat, depth: int) -> bool {
    depth <= usize::MAX && depth * sp <= usize::MAX
}

/// `"text"`: the text between double quotes, unescaped.
pub open spec fn quoted(s: Seq<char>) -> Seq<char> {
    "\""@ + s + "\""@
}

/// `[(1, 2), (3, 4)]`: symbol and binding numbers of each pair.
pub open spec fn raw_id_pairs(s: Seq<(Symbol, BindingId)>) -> Seq<char> {
    "["@ + join(
        s.map_values(
            |p: (Symbol, BindingId)| "("@ + nat_text(p.0.0 as nat) + ", "@ + nat_text(p.1.0 as nat) + ")"@,
        ),
        ", "@,
    ) + "]"@
}

// ---------------------------------------------------------------------------
// How deep below a node its printed lines go: zero when it prints no child
// lines, else one more than its deepest child.

pub open spec fn value_height(v: Value) -> nat
    decreases v,
{
    match v {
        Value::Closure { body, .. } => 1 + expr_height(*body),
        Value::ActionClosure { stmts, .. } => if stmts@.len() == 0 {
            0
        } else {
            1 + actions_height(stmts@)
        },
        _ => 0,
    }
}

pub open spec fn max(a: nat, b: nat) -> nat {
    if a < b {
        b
    } else {
        a
    }
}

/// The greatest height among the expressions (zero for none).
pub open spec fn exprs_height(s: Seq<Expr>) -> nat
    decreases s,
{
    if s.len() == 0 {
        0
    } else {
        max(exprs_height(s.drop_last()), expr_height(s.last()))
    }
}

/// The greatest height among the statements (zero for none).
pub open spec fn actions_height(s: Seq<ActionStmt>) -> nat
    decreases s,
{
    if s.len() == 0 {
        0
    } else {
        max(actions_height(s.drop_last()), action_height(s.last()))
    }
}

pub open spec fn action_height(a: ActionStmt) -> nat
    decreases a,
{
    match a {
        ActionStmt::Let { expr, .. } => 1 + expr_height(expr),
        ActionStmt::Expr(e) => 1 + expr_height(e),
        ActionStmt::Do(e) => 1 + expr_height(e),
        ActionStmt::Assert(e) => 1 + expr_height(e),
        ActionStmt::Assign { expr, .. } => 1 + expr_height(expr),
        ActionStmt::Insert { row, .. } => 1 + expr_height(row),
    }
}

pub open spec fn expr_height(e: Expr) -> nat
    decreases e,
{
    match e {
        Expr::Literal { val } => 1 + value_height(val),
        Expr::Variable { .. } => 0,
        Expr::Tuple { val } => if val@.len() == 0 {
            0
        } else {
            1 + exprs_height(val@)
        },
        Expr::KeyVal { value, .. } => 1 + expr_height(*value),
        Expr::Unop { expr, .. } => 1 + expr_height(*expr),
        Expr::Binop { expr1, expr2, .. } => 1 + max(expr_height(*expr1), expr_height(*expr2)),
        Expr::If { cond, expr1, expr2 } => 1 + max(
            expr_height(*cond),
            max(expr_height(*expr1), expr_height(*expr2)),
        ),
        Expr::Func { body, .. } => 1 + expr_height(*body),
        Expr::Call { func, args } => 1 + max(expr_height(*func), exprs_height(args@)),
        Expr::Action(stmts) => if stmts@.len() == 0 {
            0
        } else {
            1 + actions_height(stmts@)
        },
        Expr::MemberAccess { .. } => 0,
        Expr::Select { where_clause, .. } => 1 + expr_height(*where_clause),
        Expr::Table { schema, records } => if schema@.len() == 0 && records@.len() == 0 {
            0
        } else {
            1 + exprs_height(records@)
        },
        Expr::Fold { operation, identity, .. } => 1 + max(
            expr_height(*operation),
            expr_height(*identity),
        ),
    }
}

pub open spec fn decl_height(d: Decl) -> nat {
    match d {
        Decl::VarDecl { val, .. } => 1 + expr_height(val),
        Decl::DefDecl { val, .. } => 1 + expr_height(val),
        Decl::TableDecl { fields, .. } => if fields@.len() == 0 {
            0
        } else {
            1
        },
    }
}

/// The greatest height among the declarations (zero for none).
pub open spec fn decls_height(s: Seq<Decl>) -> nat
    decreases s.len(),
{
    if s.len() == 0 {
        0
    } else {
        max(decls_height(s.drop_last()), decl_height(s.last()))
    }
}

pub open spec fn stmt_height(s: Stmt) -> nat {
    match s {
        Stmt::ActionStmt(a) => 1 + action_height(a),
        Stmt::Update { decls, .. } => if decls@.len() == 0 {
            0
        } else {
            1 + decls_height(decls@)
        },
        Stmt::Connect { .. } => 0,
        Stmt::Import { .. } => 0,
        Stmt::Service { decls, .. } => if decls@.len() == 0 {
            0
        } else {
            1 + decls_height(decls@)
        },
        Stmt::Test { stmts, .. } => if stmts@.len() == 0 {
            0
        } else {
            1 + actions_height(stmts@)
        },
        Stmt::Watch { expr } => 1 + expr_height(expr),
    }
}

/// The greatest height among the statements of a program (zero for none).
pub open spec fn stmts_height(s: Seq<Stmt>) -> nat
    decreases s.len(),
{
    if s.len() == 0 {
        0
    } else {
        max(stmts_height(s.drop_last()), stmt_height(s.last()))
    }
}

// ---------------------------------------------------------------------------
// The printed text of each kind of node at nesting level `ind`.

pub open spec fn value_out(sp: nat, v: Value, ind: int) -> Seq<char>
    decreases v,
{
    match v {
        Value::Number { val } => line(sp, ind, "Number: "@ + int_text(val as int)),
        Value::Bool { val } => line(sp, ind, "Bool: "@ + bool_text(val)),
        Value::String { val } => line(sp, ind, "String: "@ + quoted(val@)),
        Value::Closure {
            params,
            param_ids,
            body,
            service_name,
            service_name_id,
            service_name_binding_id,
            ..
        } => line(
            sp,
            ind,
            record(
                "Closure:"@,
                seq![
                    named("params"@, strings_debug(params@)),
                    named("param_ids"@, raw_id_pairs(param_ids@)),
                    named("service_name"@, quoted(service_name@)),
                    named("service_name_id"@, nat_text(service_name_id.0 as nat)),
                    named("service_name_binding_id"@, nat_text(service_name_binding_id.0 as nat)),
                ],
            ),
        ) + expr_out(sp, *body, ind + 1),
        Value::ActionClosure {
            stmts,
            service_name,
            service_name_id,
            service_name_binding_id,
            ..
        } => line(
            sp,
            ind,
            record(
                "ActionClosure:"@,
                seq![
                    named("service_name"@, quoted(service_name@)),
                    named("service_name_id"@, nat_text(service_name_id.0 as nat)),
                    named("service_name_binding_id"@, nat_text(service_name_binding_id.0 as nat)),
                ],
            ),
        ) + actions_out(sp, stmts@, ind + 1),
    }
}

/// The printed texts of the expressions, one after the other.
pub open spec fn exprs_out(sp: nat, s: Seq<Expr>, ind: int) -> Seq<char>
    decreases s,
{
    if s.len() == 0 {
        Seq::empty()
    } else {
        exprs_out(sp, s.drop_last(), ind) + expr_out(sp, s.last(), ind)
    }
}

/// The printed texts of the statements, one after the other.
pub open spec fn actions_out(sp: nat, s: Seq<ActionStmt>, ind: int) -> Seq<char>
    decreases s,
{
    if s.len() == 0 {
        Seq::empty()
    } else {
        actions_out(sp, s.drop_last(), ind) + action_out(sp, s.last(), ind)
    }
}

/// The line of a column.
pub open spec fn field_out(sp: nat, f: Field, ind: int) -> Seq<char> {
    line(
        sp,
        ind,
        record(
            "Field:"@,
            seq![
                named("name"@, quoted(f.name@)),
                named("name_id"@, nat_text(f.name_id.0 as nat)),
                named("binding_id"@, nat_text(f.binding_id.0 as nat)),
                named("type_"@, datatype_name(f.type_)),
            ],
        ),
    )
}

/// The lines of the columns, one after the other.
pub open spec fn fields_out(sp: nat, s: Seq<Field>, ind: int) -> Seq<char>
    decreases s.len(),
{
    if s.len() == 0 {
        Seq::empty()
    } else {
        fields_out(sp, s.drop_last(), ind) + field_out(sp, s.last(), ind)
    }
}

/// `{ name: "n", name_id: i, binding_id: b }` headers share these parts.
pub open spec fn name_parts(label: Seq<char>, name: Seq<char>, id: Symbol, b: BindingId, id_label: Seq<char>, b_label: Seq<char>) -> Seq<Seq<char>> {
    seq![named(label, quoted(name)), named(id_label, nat_text(id.0 as nat)), named(b_label, nat_text(b.0 as nat))]
}

pub open spec fn action_out(sp: nat, a: ActionStmt, ind: int) -> Seq<char>
    decreases a,
{
    match a {
        ActionStmt::Let { name, expr, name_id, binding_id } => line(
            sp,
            ind,
            record("Let:"@, name_parts("name"@, name@, name_id, binding_id, "name_id"@, "binding_id"@)),
        ) + expr_out(sp, expr, ind + 1),
        ActionStmt::Expr(e) => line(sp, ind, "Expr:"@) + expr_out(sp, e, ind + 1),
        ActionStmt::Do(e) => line(sp, ind, "Do:"@) + expr_out(sp, e, ind + 1),
        ActionStmt::Assert(e) => line(sp, ind, "Assert:"@) + expr_out(sp, e, ind + 1),
        ActionStmt::Assign { var, name_id, binding_id, expr } => line(
            sp,
            ind,
            record("Assign:"@, name_parts("var"@, var@, name_id, binding_id, "name_id"@, "binding_id"@)),
        ) + expr_out(sp, expr, ind + 1),
        ActionStmt::Insert { row, table_name, table_name_id, table_binding_id } => line(
            sp,
            ind,
            record(
                "Insert:"@,
                name_parts(
                    "table_name"@,
                    table_name@,
                    table_name_id,
                    table_binding_id,
                    "table_name_id"@,
                    "table_binding_id"@,
                ),
            ),
        ) + expr_out(sp, row, ind + 1),
    }
}

pub open spec fn expr_out(sp: nat, e: Expr, ind: int) -> Seq<char>
    decreases e,
{
    match e {
        Expr::Literal { val } => line(sp, ind, "Literal:"@) + value_out(sp, val, ind + 1),
        Expr::Variable { ident, name_id, binding_id } => line(
            sp,
            ind,
            record("Variable:"@, name_parts("ident"@, ident@, name_id, binding_id, "name_id"@, "binding_id"@)),
        ),
        Expr::Tuple { val } => line(sp, ind, "Tuple:"@) + exprs_out(sp, val@, ind + 1),
        Expr::KeyVal { key, key_id, key_binding_id, value } => line(
            sp,
            ind,
            record("KeyVal:"@, name_parts("key"@, key@, key_id, key_binding_id, "key_id"@, "key_binding_id"@)),
        ) + expr_out(sp, *value, ind + 1),
        Expr::Unop { op, expr } => line(sp, ind, record("Unop:"@, seq![named("op"@, unop_name(op))]))
            + expr_out(sp, *expr, ind + 1),
        Expr::Binop { op, expr1, expr2 } => line(
            sp,
            ind,
            record("Binop:"@, seq![named("op"@, binop_name(op))]),
        ) + expr_out(sp, *expr1, ind + 1) + expr_out(sp, *expr2, ind + 1),
        Expr::If { cond, expr1, expr2 } => line(sp, ind, "If:"@) + expr_out(sp, *cond, ind + 1)
            + expr_out(sp, *expr1, ind + 1) + expr_out(sp, *expr2, ind + 1),
        Expr::Func { params, param_ids, body } => line(
            sp,
            ind,
            record(
                "Func:"@,
                seq![
                    named("params"@, strings_debug(params@)),
                    named("param_ids"@, raw_id_pairs(param_ids@)),
                ],
            ),
        ) + expr_out(sp, *body, ind + 1),
        Expr::Call { func, args } => line(sp, ind, "Call:"@) + expr_out(sp, *func, ind + 1) + exprs_out(
            sp,
            args@,
            ind + 1,
        ),
        Expr::Action(stmts) => line(sp, ind, "Action:"@) + actions_out(sp, stmts@, ind + 1),
        Expr::MemberAccess {
            service,
            service_id,
            service_binding_id,
            member,
            member_id,
            member_binding_id,
        } => line(
            sp,
            ind,
            record(
                "MemberAccess:"@,
                name_parts(
                    "service"@,
                    service@,
                    service_id,
                    service_binding_id,
                    "service_id"@,
                    "service_binding_id"@,
                ) + name_parts(
                    "member"@,
                    member@,
                    member_id,
                    member_binding_id,
                    "member_id"@,
                    "member_binding_id"@,
                ),
            ),
        ),
        Expr::Select {
            table_name,
            table_name_id,
            table_binding_id,
            column_names,
            column_ids,
            where_clause,
        } => line(
            sp,
            ind,
            record(
                "Select:"@,
                name_parts(
                    "table_name"@,
                    table_name@,
                    table_name_id,
                    table_binding_id,
                    "table_name_id"@,
                    "table_binding_id"@,
                ) + seq![
                    named("column_names"@, strings_debug(column_names@)),
                    named("column_ids"@, raw_id_pairs(column_ids@)),
                ],
            ),
        ) + expr_out(sp, *where_clause, ind + 1),
        Expr::Table { schema, records } => line(sp, ind, "Table:"@) + fields_out(sp, schema@, ind + 1)
            + exprs_out(sp, records@, ind + 1),
        Expr::Fold {
            table_name,
            table_name_id,
            table_binding_id,
            column_name,
            column_name_id,
            column_binding_id,
            operation,
            identity,
        } => line(
            sp,
            ind,
            record(
                "Fold:"@,
                name_parts(
                    "table_name"@,
                    table_name@,
                    table_name_id,
                    table_binding_id,
                    "table_name_id"@,
                    "table_binding_id"@,
                ) + name_parts(
                    "column_name"@,
                    column_name@,
                    column_name_id,
                    column_binding_id,
                    "column_name_id"@,
                    "column_binding_id"@,
                ),
            ),
        ) + expr_out(sp, *operation, ind + 1) + expr_out(sp, *identity, ind + 1),
    }
}

pub open spec fn decl_out(sp: nat, d: Decl, ind: int) -> Seq<char> {
    match d {
        Decl::VarDecl { name, name_id, binding_id, val } => line(
            sp,
            ind,
            record("VarDecl:"@, name_parts("name"@, name@, name_id, binding_id, "name_id"@, "binding_id"@)),
        ) + expr_out(sp, val, ind + 1),
        Decl::DefDecl { name, name_id, binding_id, val, is_pub } => line(
            sp,
            ind,
            record(
                "DefDecl:"@,
                name_parts("name"@, name@, name_id, binding_id, "name_id"@, "binding_id"@) + seq![
                    named("is_pub"@, bool_text(is_pub)),
                ],
            ),
        ) + expr_out(sp, val, ind + 1),
        Decl::TableDecl { name, name_id, binding_id, fields } => line(
            sp,
            ind,
            record("TableDecl:"@, name_parts("name"@, name@, name_id, binding_id, "name_id"@, "binding_id"@)),
        ) + fields_out(sp, fields@, ind + 1),
    }
}

/// The printed texts of the declarations, one after the other.
pub open spec fn decls_out(sp: nat, s: Seq<Decl>, ind: int) -> Seq<char>
    decreases s.len(),
{
    if s.len() == 0 {
        Seq::empty()
    } else {
        decls_out(sp, s.drop_last(), ind) + decl_out(sp, s.last(), ind)
    }
}

pub open spec fn stmt_out(sp: nat, s: Stmt, ind: int) -> Seq<char> {
    match s {
        Stmt::ActionStmt(a) => line(sp, ind, "ActionStmt:"@) + action_out(sp, a, ind + 1),
        Stmt::Update { service, service_id, service_binding_id, decls } => line(
            sp,
            ind,
            record(
                "Update:"@,
                name_parts("service"@, service@, service_id, service_binding_id, "service_id"@, "service_binding_id"@),
            ),
        ) + decls_out(sp, decls@, ind + 1),
        Stmt::Connect { path, addr } => line(
            sp,
            ind,
            record("Connect:"@, seq![named("path"@, quoted(path@)), named("addr"@, quoted(addr@))]),
        ),
        Stmt::Import { path, service, service_id, service_binding_id } => line(
            sp,
            ind,
            record(
                "Import:"@,
                seq![named("path"@, quoted(path@))] + name_parts(
                    "service"@,
                    service@,
                    service_id,
                    service_binding_id,
                    "service_id"@,
                    "service_binding_id"@,
                ),
            ),
        ),
        Stmt::Service { name, name_id, binding_id, decls } => line(
            sp,
            ind,
            record("Service:"@, name_parts("name"@, name@, name_id, binding_id, "name_id"@, "binding_id"@)),
        ) + decls_out(sp, decls@, ind + 1),
        Stmt::Test { service, service_id, service_binding_id, stmts } => line(
            sp,
            ind,
            record(
                "Test:"@,
                name_parts("service"@, service@, service_id, service_binding_id, "service_id"@, "service_binding_id"@),
            ),
        ) + actions_out(sp, stmts@, ind + 1),
        Stmt::Watch { expr } => line(sp, ind, "Watch:"@) + expr_out(sp, expr, ind + 1),
    }
}

/// The printed texts of a program's statements, each at level zero.
pub open spec fn program_out(sp: nat, s: Seq<Stmt>) -> Seq<char>
    decreases s.len(),
{
    if s.len() == 0 {
        Seq::empty()
    } else {
        program_out(sp, s.drop_last()) + stmt_out(sp, s.last(), 0)
    }
}

// ---------------------------------------------------------------------------
// Facts about heights and levels.

proof fn lemma_fits_mono(sp: nat, a: int, b: int)
    requires
        0 <= a <= b,
        fits(sp, b),
    ensures
        fits(sp, a),
        a * sp <= b * sp,
{
    assert(a * sp <= b * sp) by (nonlinear_arith)
        requires
            0 <= a <= b,
    ;
}

proof fn lemma_exprs_height(s: Seq<Expr>, i: int)
    requires
        0 <= i < s.len(),
    ensures
        expr_height(s[i]) <= exprs_height(s),
    decreases s.len(),
{
    if i < s.len() - 1 {
        lemma_exprs_height(s.drop_last(), i);
    }
}

proof fn lemma_actions_height(s: Seq<ActionStmt>, i: int)
    requires
        0 <= i < s.len(),
    ensures
        action_height(s[i]) <= actions_height(s),
    decreases s.len(),
{
    if i < s.len() - 1 {
        lemma_actions_height(s.drop_last(), i);
    }
}

proof fn lemma_decls_height(s: Seq<Decl>, i: int)
    requires
        0 <= i < s.len(),
    ensures
        decl_height(s[i]) <= decls_height(s),
    decreases s.len(),
{
    if i < s.len() - 1 {
        lemma_decls_height(s.drop_last(), i);
    }
}

proof fn lemma_stmts_height(s: Seq<Stmt>, i: int)
    requires
        0 <= i < s.len(),
    ensures
        stmt_height(s[i]) <= stmts_height(s),
    decreases s.len(),
{
    if i < s.len() - 1 {
        lemma_stmts_height(s.drop_last(), i);
    }
}

// ---------------------------------------------------------------------------
// Listings of programs split in two.

/// The listing of a program is the listings of its parts, one after the
/// other: listing no statements gives nothing, and listing `a` followed by
/// `b` gives the listing of `a` and then that of `b`. The deepest level of
/// the whole is the deeper of the two parts'.
pub proof fn lemma_program_out_append(sp: nat, a: Seq<Stmt>, b: Seq<Stmt>)
    ensures
        program_out(sp, Seq::empty()) == Seq::<char>::empty(),
        program_out(sp, a + b) == program_out(sp, a) + program_out(sp, b),
        stmts_height(a + b) == max(stmts_height(a), stmts_height(b)),
    decreases b.len(),
{
    if b.len() == 0 {
        assert(a + b =~= a);
        assert(program_out(sp, b) =~= Seq::<char>::empty());
    } else {
        assert((a + b).drop_last() =~= a + b.drop_last());
        assert((a + b).last() == b.last());
        lemma_program_out_append(sp, a, b.drop_last());
        assert(program_out(sp, a + b) =~= program_out(sp, a) + program_out(sp, b));
    }
}

// ---------------------------------------------------------------------------
// What the listing leaves out.

/// Two closure values of the same kind that agree in every field but the
/// captured environment.
pub open spec fn same_but_env(v1: Value, v2: Value) -> bool {
    match (v1, v2) {
        (
            Value::Closure {
                params: p1,
                param_ids: i1,
                body: b1,
                service_name: n1,
                service_name_id: s1,
                service_name_binding_id: d1,
                ..
            },
            Value::Closure {
                params: p2,
                param_ids: i2,
                body: b2,
                service_name: n2,
                service_name_id: s2,
                service_name_binding_id: d2,
                ..
            },
        ) => p1@ == p2@ && i1@ == i2@ && b1 == b2 && n1@ == n2@ && s1 == s2 && d1 == d2,
        (
            Value::ActionClosure {
                stmts: a1,
                service_name: n1,
                service_name_id: s1,
                service_name_binding_id: d1,
                ..
            },
            Value::ActionClosure {
                stmts: a2,
                service_name: n2,
                service_name_id: s2,
                service_name_binding_id: d2,
                ..
            },
        ) => a1@ == a2@ && n1@ == n2@ && s1 == s2 && d1 == d2,
        _ => false,
    }
}

/// A closure's captured environment never reaches the listing: two closures
/// that differ only in it print the same lines at every level and nest
/// equally deep.
pub proof fn lemma_closure_env_unprinted(sp: nat, v1: Value, v2: Value, ind: int)
    requires
        same_but_env(v1, v2),
    ensures
        value_out(sp, v1, ind) == value_out(sp, v2, ind),
        value_height(v1) == value_height(v2),
{
}

// ---------------------------------------------------------------------------
// Listing lines of plain values.

/// The listing of a boolean value is one line at its level that shows the
/// value: `Bool: true` or `Bool: false`. Different booleans give different
/// listings.
pub proof fn lemma_bool_value_line(sp: nat, ind: int, b: bool, c: bool)
    ensures
        value_out(sp, (Value::Bool { val: b }), ind) == blanks((ind * sp) as nat) + "Bool: "@ + (if b {
            seq!['t', 'r', 'u', 'e']
        } else {
            seq!['f', 'a', 'l', 's', 'e']
        }) + "\n"@,
        value_out(sp, (Value::Bool { val: b }), ind) == value_out(sp, (Value::Bool { val: c }), ind) ==> b == c,
{
    crate::text::lemma_bool_text();
    crate::text::lemma_frame_injective(blanks((ind * sp) as nat) + "Bool: "@, bool_text(b), bool_text(c), "\n"@);
    assert(value_out(sp, (Value::Bool { val: b }), ind) =~= (blanks((ind * sp) as nat) + "Bool: "@) + bool_text(b)
        + "\n"@);
    assert(value_out(sp, (Value::Bool { val: c }), ind) =~= (blanks((ind * sp) as nat) + "Bool: "@) + bool_text(c)
        + "\n"@);
}

/// The listing of a number is one line at its level that shows its decimal
/// text: `Number: ` and the number. Different numbers give different
/// listings.
pub proof fn lemma_number_value_line(sp: nat, ind: int, n: i32, m: i32)
    ensures
        value_out(sp, (Value::Number { val: n }), ind) == blanks((ind * sp) as nat) + "Number: "@ + int_text(
            n as int,
        ) + "\n"@,
        value_out(sp, (Value::Number { val: n }), ind) == value_out(sp, (Value::Number { val: m }), ind) ==> n == m,
{
    crate::text::lemma_int_text(n as int, m as int);
    crate::text::lemma_frame_injective(
        blanks((ind * sp) as nat) + "Number: "@,
        int_text(n as int),
        int_text(m as int),
        "\n"@,
    );
    assert(value_out(sp, (Value::Number { val: n }), ind) =~= (blanks((ind * sp) as nat) + "Number: "@) + int_text(
        n as int,
    ) + "\n"@);
    assert(value_out(sp, (Value::Number { val: m }), ind) =~= (blanks((ind * sp) as nat) + "Number: "@) + int_text(
        m as int,
    ) + "\n"@);
}

/// The listing of a string value is one line at its level that shows the
/// string between double quotes, unescaped. Different strings give
/// different listings.
pub proof fn lemma_string_value_line(sp: nat, ind: int, s: String, t: String)
    ensures
        value_out(sp, (Value::String { val: s }), ind) == blanks((ind * sp) as nat) + "String: "@ + "\""@ + s@
            + "\""@ + "\n"@,
        value_out(sp, (Value::String { val: s }), ind) == value_out(sp, (Value::String { val: t }), ind) ==> s@
            == t@,
{
    crate::text::lemma_frame_injective(
        blanks((ind * sp) as nat) + "String: "@ + "\""@,
        s@,
        t@,
        "\""@ + "\n"@,
    );
    assert(value_out(sp, (Value::String { val: s }), ind) =~= (blanks((ind * sp) as nat) + "String: "@ + "\""@)
        + s@ + ("\""@ + "\n"@));
    assert(value_out(sp, (Value::String { val: t }), ind) =~= (blanks((ind * sp) as nat) + "String: "@ + "\""@)
        + t@ + ("\""@ + "\n"@));
}

/// The listing of an operator expression is a header line naming the
/// operator by its `Debug` name, then the operands' listings one level
/// deeper, left before right. Different operators over the same operands
/// give different listings.
pub proof fn lemma_binop_listing(sp: nat, ind: int, op: BinOp, op2: BinOp, e1: Box<Expr>, e2: Box<Expr>)
    ensures
        expr_out(sp, (Expr::Binop { op, expr1: e1, expr2: e2 }), ind) == blanks((ind * sp) as nat)
            + "Binop: { op: "@ + binop_name(op) + " }\n"@ + expr_out(sp, *e1, ind + 1) + expr_out(
            sp,
            *e2,
            ind + 1,
        ),
        expr_out(sp, (Expr::Binop { op, expr1: e1, expr2: e2 }), ind) == expr_out(
            sp,
            (Expr::Binop { op: op2, expr1: e1, expr2: e2 }),
            ind,
        ) ==> op == op2,
{
    reveal_strlit("Binop: { op: ");
    reveal_strlit("Binop:");
    reveal_strlit(" { ");
    reveal_strlit("op");
    reveal_strlit(": ");
    reveal_strlit(" }\n");
    reveal_strlit(" }");
    reveal_strlit("\n");
    let pre = blanks((ind * sp) as nat) + "Binop: { op: "@;
    let post = " }\n"@ + expr_out(sp, *e1, ind + 1) + expr_out(sp, *e2, ind + 1);
    assert(join(seq![named("op"@, binop_name(op))], ", "@) == named("op"@, binop_name(op)));
    assert(join(seq![named("op"@, binop_name(op2))], ", "@) == named("op"@, binop_name(op2)));
    assert(expr_out(sp, (Expr::Binop { op, expr1: e1, expr2: e2 }), ind) =~= pre + binop_name(op) + post);
    assert(expr_out(sp, (Expr::Binop { op: op2, expr1: e1, expr2: e2 }), ind) =~= pre + binop_name(op2) + post);
    crate::text::lemma_frame_injective(pre, binop_name(op), binop_name(op2), post);
    crate::repr::lemma_binop_names();
}

// ---------------------------------------------------------------------------
// Pieces of header lines.

/// `label: "s"`.
fn quoted_part(label: &str, s: &str) -> (res: String)
    ensures
        res@ == named(label@, quoted(s@)),
{
    let mut res = field_start(label);
    res.append("\"");
    res.append(s);
    res.append("\"");
    assert(res@ =~= named(label@, quoted(s@)));
    res
}

/// `label: n`.
fn num_part(label: &str, n: u64) -> (res: String)
    ensures
        res@ == named(label@, nat_text(n as nat)),
{
    let mut res = field_start(label);
    crate::text::push_u64(&mut res, n);
    res
}

/// Appends `[(1, 2), (3, 4)]` for the pairs.
fn write_raw_id_pairs(out: &mut String, v: &Vec<(Symbol, BindingId)>)
    ensures
        final(out)@ == old(out)@ + raw_id_pairs(v@),
{
    let ghost start = out@;
    let ghost parts = v@.map_values(
        |p: (Symbol, BindingId)| "("@ + nat_text(p.0.0 as nat) + ", "@ + nat_text(p.1.0 as nat) + ")"@,
    );
    out.append("[");
    let mut i: usize = 0;
    while i < v.len()
        invariant
            i <= v.len(),
            parts == v@.map_values(
                |p: (Symbol, BindingId)| "("@ + nat_text(p.0.0 as nat) + ", "@ + nat_text(p.1.0 as nat) + ")"@,
            ),
            out@ == start + "["@ + join(parts.take(i as int), ", "@),
        decreases v.len() - i,
    {
        if i > 0 {
            out.append(", ");
        }
        let ghost mid = out@;
        out.append("(");
        crate::text::push_u64(out, v[i].0.0 as u64);
        out.append(", ");
        crate::text::push_u64(out, v[i].1.0);
        out.append(")");
        assert(out@ =~= mid + parts[i as int]);
        proof {
            lemma_join_step(parts, i as int, ", "@);
        }
        i = i + 1;
    }
    out.append("]");
    assert(parts.take(v.len() as int) =~= parts);
}

impl AstPrinter {
    /// A printer that indents by two blanks per level.
    pub fn new() -> (res: Self)
        ensures
            res.spaces_per_level() == 2,
    {
        AstPrinter { spaces: 2 }
    }

    /// A printer that indents by `spaces` blanks per level.
    pub fn with_spaces(spaces: usize) -> (res: Self)
        ensures
            res.spaces_per_level() == spaces,
    {
        AstPrinter { spaces }
    }

    /// Appends the blanks of nesting level `indent`.
    fn write_indent(&self, out: &mut String, indent: usize)
        requires
            indent * self.spaces <= usize::MAX,
        ensures
            final(out)@ == old(out)@ + blanks((indent * self.spaces) as nat),
    {
        let ghost start = out@;
        let n = indent * self.spaces;
        let mut i: usize = 0;
        while i < n
            invariant
                i <= n,
                out@ == start + blanks(i as nat),
            decreases n - i,
        {
            push_char(out, ' ');
            i = i + 1;
            assert(out@ =~= start + blanks(i as nat));
        }
    }

    /// Appends the lines of the columns at level `parent + 1`.
    fn write_fields(&self, out: &mut String, v: &Vec<Field>, parent: usize)
        requires
            v@.len() > 0 ==> fits(self.spaces as nat, parent + 1),
        ensures
            final(out)@ == old(out)@ + fields_out(self.spaces as nat, v@, parent + 1),
    {
        let ghost start = out@;
        let ghost sp = self.spaces as nat;
        let mut i: usize = 0;
        while i < v.len()
            invariant
                i <= v.len(),
                sp == self.spaces as nat,
                v@.len() > 0 ==> fits(sp, parent + 1),
                out@ == start + fields_out(sp, v@.take(i as int), parent + 1),
            decreases v.len() - i,
        {
            let indent = parent + 1;
            self.write_indent(out, indent);
            let f = &v[i];
            let mut parts: Vec<String> = Vec::new();
            parts.push(quoted_part("name", f.name.as_str()));
            parts.push(num_part("name_id", f.name_id.0 as u64));
            parts.push(num_part("binding_id", f.binding_id.0));
            let mut t = field_start("type_");
            write_datatype_name(&mut t, f.type_);
            parts.push(t);
            assert(string_views(parts@) =~= seq![
                named("name"@, quoted(f.name@)),
                named("name_id"@, nat_text(f.name_id.0 as nat)),
                named("binding_id"@, nat_text(f.binding_id.0 as nat)),
                named("type_"@, datatype_name(f.type_)),
            ]);
            write_record(out, "Field:", &parts);
            out.append("\n");
            proof {
                let s = v@.take(i + 1);
                assert(s.drop_last() =~= v@.take(i as int));
                assert(out@ =~= start + fields_out(sp, s, parent + 1));
            }
            i = i + 1;
        }
        assert(v@.take(v.len() as int) =~= v@);
    }

    /// Appends the printed expressions at level `parent + 1`.
    fn write_exprs(&self, out: &mut String, v: &Vec<Expr>, parent: usize)
        requires
            v@.len() > 0 ==> fits(self.spaces as nat, parent + 1 + exprs_height(v@)),
        ensures
            final(out)@ == old(out)@ + exprs_out(self.spaces as nat, v@, parent + 1),
        decreases v, 0nat,
    {
        let ghost start = out@;
        let ghost sp = self.spaces as nat;
        let mut i: usize = 0;
        while i < v.len()
            invariant
                i <= v.len(),
                sp == self.spaces as nat,
                v@.len() > 0 ==> fits(sp, parent + 1 + exprs_height(v@)),
                out@ == start + exprs_out(sp, v@.take(i as int), parent + 1),
            decreases v.len() - i,
        {
            proof {
                lemma_exprs_height(v@, i as int);
                lemma_fits_mono(sp, parent + 1 + expr_height(v@[i as int]), parent + 1 + exprs_height(v@));
            }
            self.write_expr(out, &v[i], parent + 1);
            proof {
                let s = v@.take(i + 1);
                assert(s.drop_last() =~= v@.take(i as int));
                assert(out@ =~= start + exprs_out(sp, s, parent + 1));
            }
            i = i + 1;
        }
        assert(v@.take(v.len() as int) =~= v@);
    }

    /// Appends the printed statements at level `parent + 1`.
    fn write_action_stmts(&self, out: &mut String, v: &Vec<ActionStmt>, parent: usize)
        requires
            v@.len() > 0 ==> fits(self.spaces as nat, parent + 1 + actions_height(v@)),
        ensures
            final(out)@ == old(out)@ + actions_out(self.spaces as nat, v@, parent + 1),
        decreases v, 0nat,
    {
        let ghost start = out@;
        let ghost sp = self.spaces as nat;
        let mut i: usize = 0;
        while i < v.len()
            invariant
                i <= v.len(),
                sp == self.spaces as nat,
                v@.len() > 0 ==> fits(sp, parent + 1 + actions_height(v@)),
                out@ == start + actions_out(sp, v@.take(i as int), parent + 1),
            decreases v.len() - i,
        {
            proof {
                lemma_actions_height(v@, i as int);
                lemma_fits_mono(sp, parent + 1 + action_height(v@[i as int]), parent + 1 + actions_height(v@));
            }
            self.write_action_stmt(out, &v[i], parent + 1);
            proof {
                let s = v@.take(i + 1);
                assert(s.drop_last() =~= v@.take(i as int));
                assert(out@ =~= start + actions_out(sp, s, parent + 1));
            }
            i = i + 1;
        }
        assert(v@.take(v.len() as int) =~= v@);
    }

    /// Appends the printed declarations at level `parent + 1`.
    fn write_decls(&self, out: &mut String, v: &Vec<Decl>, parent: usize)
        requires
            v@.len() > 0 ==> fits(self.spaces as nat, parent + 1 + decls_height(v@)),
        ensures
            final(out)@ == old(out)@ + decls_out(self.spaces as nat, v@, parent + 1),
    {
        let ghost start = out@;
        let ghost sp = self.spaces as nat;
        let mut i: usize = 0;
        while i < v.len()
            invariant
                i <= v.len(),
                sp == self.spaces as nat,
                v@.len() > 0 ==> fits(sp, parent + 1 + decls_height(v@)),
                out@ == start + decls_out(sp, v@.take(i as int), parent + 1),
            decreases v.len() - i,
        {
            proof {
                lemma_decls_height(v@, i as int);
                lemma_fits_mono(sp, parent + 1 + decl_height(v@[i as int]), parent + 1 + decls_height(v@));
            }
            self.write_decl(out, &v[i], parent + 1);
            proof {
                let s = v@.take(i + 1);
                assert(s.drop_last() =~= v@.take(i as int));
                assert(out@ =~= start + decls_out(sp, s, parent + 1));
            }
            i = i + 1;
        }
        assert(v@.take(v.len() as int) =~= v@);
    }

    /// Appends the listing of a `Number` value.
    fn write_value_number(&self, out: &mut String, v: &Value, indent: usize)
        requires
            *v is Number,
            fits(self.spaces as nat, indent + value_height(*v)),
        ensures
            final(out)@ == old(out)@ + value_out(self.spaces as nat, *v, indent as int),
        decreases v, 0nat,
    {
        let ghost start = out@;
        let ghost sp = self.spaces as nat;
        match v {
            Value::Number { val } => {
                proof {
                    lemma_fits_mono(sp, indent as int, indent + value_height(*v));
                }
                self.write_indent(out, indent);
                out.append("Number: ");
                crate::text::push_i32(out, *val);
                out.append("\n");
                assert(out@ =~= start + value_out(sp, *v, indent as int));
            },
            _ => {},
        }
    }

    /// Appends the listing of a `Bool` value.
    fn write_value_bool(&self, out: &mut String, v: &Value, indent: usize)
        requires
            *v is Bool,
            fits(self.spaces as nat, indent + value_height(*v)),
        ensures
            final(out)@ == old(out)@ + value_out(self.spaces as nat, *v, indent as int),
        decreases v, 0nat,
    {
        let ghost start = out@;
        let ghost sp = self.spaces as nat;
        match v {
            Value::Bool { val } => {
                proof {
                    lemma_fits_mono(sp, indent as int, indent + value_height(*v));
                }
                self.write_indent(out, indent);
                out.append("Bool: ");
                crate::text::push_bool(out, *val);
                out.append("\n");
                assert(out@ =~= start + value_out(sp, *v, indent as int));
            },
            _ => {},
        }
    }

    /// Appends the listing of a `String` value.
    fn write_value_string(&self, out: &mut String, v: &Value, indent: usize)
        requires
            *v is String,
            fits(self.spaces as nat, indent + value_height(*v)),
        ensures
            final(out)@ == old(out)@ + value_out(self.spaces as nat, *v, indent as int),
        decreases v, 0nat,
    {
        let ghost start = out@;
        let ghost sp = self.spaces as nat;
        match v {
            Value::String { val } => {
                proof {
                    lemma_fits_mono(sp, indent as int, indent + value_height(*v));
                }
                self.write_indent(out, indent);
                out.append("String: ");
                out.append("\"");
                out.append(val.as_str());
                out.append("\"");
                out.append("\n");
                assert(out@ =~= start + value_out(sp, *v, indent as int));
            },
            _ => {},
        }
    }

    /// Appends the listing of a `Closure` value.
    fn write_value_closure(&self, out: &mut String, v: &Value, indent: usize)
        requires
            *v is Closure,
            fits(self.spaces as nat, indent + value_height(*v)),
        ensures
            final(out)@ == old(out)@ + value_out(self.spaces as nat, *v, indent as int),
        decreases v, 0nat,
    {
        let ghost start = out@;
        let ghost sp = self.spaces as nat;
        match v {
            Value::Closure {
                params,
                param_ids,
                body,
                service_name,
                service_name_id,
                service_name_binding_id,
                ..
            } => {
                proof {
                    lemma_fits_mono(sp, indent as int, indent + value_height(*v));
                }
                self.write_indent(out, indent);
                let mut parts: Vec<String> = Vec::new();
                let mut t = field_start("params");
                write_strings_debug(&mut t, params);
                parts.push(t);
                let mut t = field_start("param_ids");
                write_raw_id_pairs(&mut t, param_ids);
                parts.push(t);
                parts.push(quoted_part("service_name", service_name.as_str()));
                parts.push(num_part("service_name_id", service_name_id.0 as u64));
                parts.push(num_part("service_name_binding_id", service_name_binding_id.0 as u64));
                assert(string_views(parts@) =~=
                    seq![
                        named("params"@, strings_debug(params@)),
                        named("param_ids"@, raw_id_pairs(param_ids@)),
                        named("service_name"@, quoted(service_name@)),
                        named("service_name_id"@, nat_text(service_name_id.0 as nat)),
                        named("service_name_binding_id"@, nat_text(service_name_binding_id.0 as nat)),
                    ]
                );
                write_record(out, "Closure:", &parts);
                out.append("\n");
                proof {
                    lemma_fits_mono(sp, indent + 1 + expr_height(**body), indent + value_height(*v));
                }
                self.write_expr(out, &**body, indent + 1);
                assert(out@ =~= start + value_out(sp, *v, indent as int));
            },
            _ => {},
        }
    }

    /// Appends the listing of an `ActionClosure` value.
    fn write_value_action_closure(&self, out: &mut String, v: &Value, indent: usize)
        requires
            *v is ActionClosure,
            fits(self.spaces as nat, indent + value_height(*v)),
        ensures
            final(out)@ == old(out)@ + value_out(self.spaces as nat, *v, indent as int),
        decreases v, 0nat,
    {
        let ghost start = out@;
        let ghost sp = self.spaces as nat;
        match v {
            Value::ActionClosure {
                stmts,
                service_name,
                service_name_id,
                service_name_binding_id,
                ..
            } => {
                proof {
                    lemma_fits_mono(sp, indent as int, indent + value_height(*v));
                }
                self.write_indent(out, indent);
                let mut parts: Vec<String> = Vec::new();
                parts.push(quoted_part("service_name", service_name.as_str()));
                parts.push(num_part("service_name_id", service_name_id.0 as u64));
                parts.push(num_part("service_name_binding_id", service_name_binding_id.0 as u64));
                assert(string_views(parts@) =~=
                    name_parts("service_name"@, service_name@, *service_name_id, *service_name_binding_id, "service_name_id"@, "service_name_binding_id"@)
                );
                write_record(out, "ActionClosure:", &parts);
                out.append("\n");
                proof {
                    if stmts@.len() > 0 {
                        lemma_fits_mono(sp, indent + 1 + actions_height(stmts@), indent + value_height(*v));
                    }
                }
                self.write_action_stmts(out, stmts, indent);
                assert(out@ =~= start + value_out(sp, *v, indent as int));
            },
            _ => {},
        }
    }

    fn write_value(&self, out: &mut String, v: &Value, indent: usize)
        requires
            fits(self.spaces as nat, indent + value_height(*v)),
        ensures
            final(out)@ == old(out)@ + value_out(self.spaces as nat, *v, indent as int),
        decreases v, 1nat,
    {
        match v {
            Value::Number { .. } => self.write_value_number(out, v, indent),
            Value::Bool { .. } => self.write_value_bool(out, v, indent),
            Value::String { .. } => self.write_value_string(out, v, indent),
            Value::Closure { .. } => self.write_value_closure(out, v, indent),
            Value::ActionClosure { .. } => self.write_value_action_closure(out, v, indent),
        }
    }

    /// Appends the listing of a `Let` action statement.
    fn write_action_stmt_let(&self, out: &mut String, a: &ActionStmt, indent: usize)
        requires
            *a is Let,
            fits(self.spaces as nat, indent + action_height(*a)),
        ensures
            final(out)@ == old(out)@ + action_out(self.spaces as nat, *a, indent as int),
        decreases a, 0nat,
    {
        let ghost start = out@;
        let ghost sp = self.spaces as nat;
        match a {
            ActionStmt::Let { name, expr, name_id, binding_id } => {
                proof {
                    lemma_fits_mono(sp, indent as int, indent + action_height(*a));
                }
                self.write_indent(out, indent);
                let mut parts: Vec<String> = Vec::new();
                parts.push(quoted_part("name", name.as_str()));
                parts.push(num_part("name_id", name_id.0 as u64));
                parts.push(num_part("binding_id", binding_id.0 as u64));
                assert(string_views(parts@) =~=
                    name_parts("name"@, name@, *name_id, *binding_id, "name_id"@, "binding_id"@)
                );
                write_record(out, "Let:", &parts);
                out.append("\n");
                proof {
                    lemma_fits_mono(sp, indent + 1 + expr_height(*expr), indent + action_height(*a));
                }
                self.write_expr(out, expr, indent + 1);
                assert(out@ =~= start + action_out(sp, *a, indent as int));
            },
            _ => {},
        }
    }

    /// Appends the listing of an `Expr` action statement.
    fn write_action_stmt_expr(&self, out: &mut String, a: &ActionStmt, indent: usize)
        requires
            *a is Expr,
            fits(self.spaces as nat, indent + action_height(*a)),
        ensures
            final(out)@ == old(out)@ + action_out(self.spaces as nat, *a, indent as int),
        decreases a, 0nat,
    {
        let ghost start = out@;
        let ghost sp = self.spaces as nat;
        match a {
            ActionStmt::Expr(x) => {
                proof {
                    lemma_fits_mono(sp, indent as int, indent + action_height(*a));
                }
                self.write_indent(out, indent);
                out.append("Expr:");
                out.append("\n");
                proof {
                    lemma_fits_mono(sp, indent + 1 + expr_height(*x), indent + action_height(*a));
                }
                self.write_expr(out, x, indent + 1);
                assert(out@ =~= start + action_out(sp, *a, indent as int));
            },
            _ => {},
        }
    }

    /// Appends the listing of a `Do` action statement.
    fn write_action_stmt_do(&self, out: &mut String, a: &ActionStmt, indent: usize)
        requires
            *a is Do,
            fits(self.spaces as nat, indent + action_height(*a)),
        ensures
            final(out)@ == old(out)@ + action_out(self.spaces as nat, *a, indent as int),
        decreases a, 0nat,
    {
        let ghost start = out@;
        let ghost sp = self.spaces as nat;
        match a {
            ActionStmt::Do(x) => {
                proof {
                    lemma_fits_mono(sp, indent as int, indent + action_height(*a));
                }
                self.write_indent(out, indent);
                out.append("Do:");
                out.append("\n");
                proof {
                    lemma_fits_mono(sp, indent + 1 + expr_height(*x), indent + action_height(*a));
                }
                self.write_expr(out, x, indent + 1);
                assert(out@ =~= start + action_out(sp, *a, indent as int));
            },
            _ => {},
        }
    }

    /// Appends the listing of an `Assert` action statement.
    fn write_action_stmt_assert(&self, out: &mut String, a: &ActionStmt, indent: usize)
        requires
            *a is Assert,
            fits(self.spaces as nat, indent + action_height(*a)),
        ensures
            final(out)@ == old(out)@ + action_out(self.spaces as nat, *a, indent as int),
        decreases a, 0nat,
    {
        let ghost start = out@;
        let ghost sp = self.spaces as nat;
        match a {
            ActionStmt::Assert(x) => {
                proof {
                    lemma_fits_mono(sp, indent as int, indent + action_height(*a));
                }
                self.write_indent(out, indent);
                out.append("Assert:");
                out.append("\n");
                proof {
                    lemma_fits_mono(sp, indent + 1 + expr_height(*x), indent + action_height(*a));
                }
                self.write_expr(out, x, indent + 1);
                assert(out@ =~= start + action_out(sp, *a, indent as int));
            },
            _ => {},
        }
    }

    /// Appends the listing of an `Assign` action statement.
    fn write_action_stmt_assign(&self, out: &mut String, a: &ActionStmt, indent: usize)
        requires
            *a is Assign,
            fits(self.spaces as nat, indent + action_height(*a)),
        ensures
            final(out)@ == old(out)@ + action_out(self.spaces as nat, *a, indent as int),
        decreases a, 0nat,
    {
        let ghost start = out@;
        let ghost sp = self.spaces as nat;
        match a {
            ActionStmt::Assign { var, name_id, binding_id, expr } => {
                proof {
                    lemma_fits_mono(sp, indent as int, indent + action_height(*a));
                }
                self.write_indent(out, indent);
                let mut parts: Vec<String> = Vec::new();
                parts.push(quoted_part("var", var.as_str()));
                parts.push(num_part("name_id", name_id.0 as u64));
                parts.push(num_part("binding_id", binding_id.0 as u64));
                assert(string_views(parts@) =~=
                    name_parts("var"@, var@, *name_id, *binding_id, "name_id"@, "binding_id"@)
                );
                write_record(out, "Assign:", &parts);
                out.append("\n");
                proof {
                    lemma_fits_mono(sp, indent + 1 + expr_height(*expr), indent + action_height(*a));
                }
                self.write_expr(out, expr, indent + 1);
                assert(out@ =~= start + action_out(sp, *a, indent as int));
            },
            _ => {},
        }
    }

    /// Appends the listing of an `Insert` action statement.
    fn write_action_stmt_insert(&self, out: &mut String, a: &ActionStmt, indent: usize)
        requires
            *a is Insert,
            fits(self.spaces as nat, indent + action_height(*a)),
        ensures
            final(out)@ == old(out)@ + action_out(self.spaces as nat, *a, indent as int),
        decreases a, 0nat,
    {
        let ghost start = out@;
        let ghost sp = self.spaces as nat;
        match a {
            ActionStmt::Insert { row, table_name, table_name_id, table_binding_id } => {
                proof {
                    lemma_fits_mono(sp, indent as int, indent + action_height(*a));
                }
                self.write_indent(out, indent);
                let mut parts: Vec<String> = Vec::new();
                parts.push(quoted_part("table_name", table_name.as_str()));
                parts.push(num_part("table_name_id", table_name_id.0 as u64));
                parts.push(num_part("table_binding_id", table_binding_id.0 as u64));
                assert(string_views(parts@) =~=
                    name_parts("table_name"@, table_name@, *table_name_id, *table_binding_id, "table_name_id"@, "table_binding_id"@)
                );
                write_record(out, "Insert:", &parts);
                out.append("\n");
                proof {
                    lemma_fits_mono(sp, indent + 1 + expr_height(*row), indent + action_height(*a));
                }
                self.write_expr(out, row, indent + 1);
                assert(out@ =~= start + action_out(sp, *a, indent as int));
            },
            _ => {},
        }
    }

    fn write_action_stmt(&self, out: &mut String, a: &ActionStmt, indent: usize)
        requires
            fits(self.spaces as nat, indent + action_height(*a)),
        ensures
            final(out)@ == old(out)@ + action_out(self.spaces as nat, *a, indent as int),
        decreases a, 1nat,
    {
        match a {
            ActionStmt::Let { .. } => self.write_action_stmt_let(out, a, indent),
            ActionStmt::Expr(..) => self.write_action_stmt_expr(out, a, indent),
            ActionStmt::Do(..) => self.write_action_stmt_do(out, a, indent),
            ActionStmt::Assert(..) => self.write_action_stmt_assert(out, a, indent),
            ActionStmt::Assign { .. } => self.write_action_stmt_assign(out, a, indent),
            ActionStmt::Insert { .. } => self.write_action_stmt_insert(out, a, indent),
        }
    }

    /// Appends the listing of a `Literal` expression.
    fn write_expr_literal(&self, out: &mut String, e: &Expr, indent: usize)
        requires
            *e is Literal,
            fits(self.spaces as nat, indent + expr_height(*e)),
        ensures
            final(out)@ == old(out)@ + expr_out(self.spaces as nat, *e, indent as int),
        decreases e, 0nat,
    {
        let ghost start = out@;
        let ghost sp = self.spaces as nat;
        match e {
            Expr::Literal { val } => {
                proof {
                    lemma_fits_mono(sp, indent as int, indent + expr_height(*e));
                }
                self.write_indent(out, indent);
                out.append("Literal:");
                out.append("\n");
                proof {
                    lemma_fits_mono(sp, indent + 1 + value_height(*val), indent + expr_height(*e));
                }
                self.write_value(out, val, indent + 1);
                assert(out@ =~= start + expr_out(sp, *e, indent as int));
            },
            _ => {},
        }
    }

    /// Appends the listing of a `Variable` expression.
    fn write_expr_variable(&self, out: &mut String, e: &Expr, indent: usize)
        requires
            *e is Variable,
            fits(self.spaces as nat, indent + expr_height(*e)),
        ensures
            final(out)@ == old(out)@ + expr_out(self.spaces as nat, *e, indent as int),
        decreases e, 0nat,
    {
        let ghost start = out@;
        let ghost sp = self.spaces as nat;
        match e {
            Expr::Variable { ident, name_id, binding_id } => {
                proof {
                    lemma_fits_mono(sp, indent as int, indent + expr_height(*e));
                }
                self.write_indent(out, indent);
                let mut parts: Vec<String> = Vec::new();
                parts.push(quoted_part("ident", ident.as_str()));
                parts.push(num_part("name_id", name_id.0 as u64));
                parts.push(num_part("binding_id", binding_id.0 as u64));
                assert(string_views(parts@) =~=
                    name_parts("ident"@, ident@, *name_id, *binding_id, "name_id"@, "binding_id"@)
                );
                write_record(out, "Variable:", &parts);
                out.append("\n");
                assert(out@ =~= start + expr_out(sp, *e, indent as int));
            },
            _ => {},
        }
    }

    /// Appends the listing of a `Tuple` expression.
    fn write_expr_tuple(&self, out: &mut String, e: &Expr, indent: usize)
        requires
            *e is Tuple,
            fits(self.spaces as nat, indent + expr_height(*e)),
        ensures
            final(out)@ == old(out)@ + expr_out(self.spaces as nat, *e, indent as int),
        decreases e, 0nat,
    {
        let ghost start = out@;
        let ghost sp = self.spaces as nat;
        match e {
            Expr::Tuple { val } => {
                proof {
                    lemma_fits_mono(sp, indent as int, indent + expr_height(*e));
                }
                self.write_indent(out, indent);
                out.append("Tuple:");
                out.append("\n");
                proof {
                    if val@.len() > 0 {
                        lemma_fits_mono(sp, indent + 1 + exprs_height(val@), indent + expr_height(*e));
                    }
                }
                self.write_exprs(out, val, indent);
                assert(out@ =~= start + expr_out(sp, *e, indent as int));
            },
            _ => {},
        }
    }

    /// Appends the listing of a `KeyVal` expression.
    fn write_expr_key_val(&self, out: &mut String, e: &Expr, indent: usize)
        requires
            *e is KeyVal,
            fits(self.spaces as nat, indent + expr_height(*e)),
        ensures
            final(out)@ == old(out)@ + expr_out(self.spaces as nat, *e, indent as int),
        decreases e, 0nat,
    {
        let ghost start = out@;
        let ghost sp = self.spaces as nat;
        match e {
            Expr::KeyVal { key, key_id, key_binding_id, value } => {
                proof {
                    lemma_fits_mono(sp, indent as int, indent + expr_height(*e));
                }
                self.write_indent(out, indent);
                let mut parts: Vec<String> = Vec::new();
                parts.push(quoted_part("key", key.as_str()));
                parts.push(num_part("key_id", key_id.0 as u64));
                parts.push(num_part("key_binding_id", key_binding_id.0 as u64));
                assert(string_views(parts@) =~=
                    name_parts("key"@, key@, *key_id, *key_binding_id, "key_id"@, "key_binding_id"@)
                );
                write_record(out, "KeyVal:", &parts);
                out.append("\n");
                proof {
                    lemma_fits_mono(sp, indent + 1 + expr_height(**value), indent + expr_height(*e));
                }
                self.write_expr(out, &**value, indent + 1);
                assert(out@ =~= start + expr_out(sp, *e, indent as int));
            },
            _ => {},
        }
    }

    /// Appends the listing of an `Unop` expression.
    fn write_expr_unop(&self, out: &mut String, e: &Expr, indent: usize)
        requires
            *e is Unop,
            fits(self.spaces as nat, indent + expr_height(*e)),
        ensures
            final(out)@ == old(out)@ + expr_out(self.spaces as nat, *e, indent as int),
        decreases e, 0nat,
    {
        let ghost start = out@;
        let ghost sp = self.spaces as nat;
        match e {
            Expr::Unop { op, expr } => {
                proof {
                    lemma_fits_mono(sp, indent as int, indent + expr_height(*e));
                }
                self.write_indent(out, indent);
                let mut parts: Vec<String> = Vec::new();
                let mut t = field_start("op");
                write_unop_name(&mut t, *op);
                parts.push(t);
                assert(string_views(parts@) =~= seq![named("op"@, unop_name(*op))]);
                write_record(out, "Unop:", &parts);
                out.append("\n");
                proof {
                    lemma_fits_mono(sp, indent + 1 + expr_height(**expr), indent + expr_height(*e));
                }
                self.write_expr(out, &**expr, indent + 1);
                assert(out@ =~= start + expr_out(sp, *e, indent as int));
            },
            _ => {},
        }
    }

    /// Appends the listing of a `Binop` expression.
    fn write_expr_binop(&self, out: &mut String, e: &Expr, indent: usize)
        requires
            *e is Binop,
            fits(self.spaces as nat, indent + expr_height(*e)),
        ensures
            final(out)@ == old(out)@ + expr_out(self.spaces as nat, *e, indent as int),
        decreases e, 0nat,
    {
        let ghost start = out@;
        let ghost sp = self.spaces as nat;
        match e {
            Expr::Binop { op, expr1, expr2 } => {
                proof {
                    lemma_fits_mono(sp, indent as int, indent + expr_height(*e));
                }
                self.write_indent(out, indent);
                let mut parts: Vec<String> = Vec::new();
                let mut t = field_start("op");
                write_binop_name(&mut t, *op);
                parts.push(t);
                assert(string_views(parts@) =~= seq![named("op"@, binop_name(*op))]);
                write_record(out, "Binop:", &parts);
                out.append("\n");
                proof {
                    lemma_fits_mono(sp, indent + 1 + expr_height(**expr1), indent + expr_height(*e));
                }
                self.write_expr(out, &**expr1, indent + 1);
                proof {
                    lemma_fits_mono(sp, indent + 1 + expr_height(**expr2), indent + expr_height(*e));
                }
                self.write_expr(out, &**expr2, indent + 1);
                assert(out@ =~= start + expr_out(sp, *e, indent as int));
            },
            _ => {},
        }
    }

    /// Appends the listing of an `If` expression.
    fn write_expr_if(&self, out: &mut String, e: &Expr, indent: usize)
        requires
            *e is If,
            fits(self.spaces as nat, indent + expr_height(*e)),
        ensures
            final(out)@ == old(out)@ + expr_out(self.spaces as nat, *e, indent as int),
        decreases e, 0nat,
    {
        let ghost start = out@;
        let ghost sp = self.spaces as nat;
        match e {
            Expr::If { cond, expr1, expr2 } => {
                proof {
                    lemma_fits_mono(sp, indent as int, indent + expr_height(*e));
                }
                self.write_indent(out, indent);
                out.append("If:");
                out.append("\n");
                proof {
                    lemma_fits_mono(sp, indent + 1 + expr_height(**cond), indent + expr_height(*e));
                }
                self.write_expr(out, &**cond, indent + 1);
                proof {
                    lemma_fits_mono(sp, indent + 1 + expr_height(**expr1), indent + expr_height(*e));
                }
                self.write_expr(out, &**expr1, indent + 1);
                proof {
                    lemma_fits_mono(sp, indent + 1 + expr_height(**expr2), indent + expr_height(*e));
                }
                self.write_expr(out, &**expr2, indent + 1);
                assert(out@ =~= start + expr_out(sp, *e, indent as int));
            },
            _ => {},
        }
    }

    /// Appends the listing of a `Func` expression.
    fn write_expr_func(&self, out: &mut String, e: &Expr, indent: usize)
        requires
            *e is Func,
            fits(self.spaces as nat, indent + expr_height(*e)),
        ensures
            final(out)@ == old(out)@ + expr_out(self.spaces as nat, *e, indent as int),
        decreases e, 0nat,
    {
        let ghost start = out@;
        let ghost sp = self.spaces as nat;
        match e {
            Expr::Func { params, param_ids, body } => {
                proof {
                    lemma_fits_mono(sp, indent as int, indent + expr_height(*e));
                }
                self.write_indent(out, indent);
                let mut parts: Vec<String> = Vec::new();
                let mut t = field_start("params");
                write_strings_debug(&mut t, params);
                parts.push(t);
                let mut t = field_start("param_ids");
                write_raw_id_pairs(&mut t, param_ids);
                parts.push(t);
                assert(string_views(parts@) =~=
                    seq![
                        named("params"@, strings_debug(params@)),
                        named("param_ids"@, raw_id_pairs(param_ids@)),
                    ]
                );
                write_record(out, "Func:", &parts);
                out.append("\n");
                proof {
                    lemma_fits_mono(sp, indent + 1 + expr_height(**body), indent + expr_height(*e));
                }
                self.write_expr(out, &**body, indent + 1);
                assert(out@ =~= start + expr_out(sp, *e, indent as int));
            },
            _ => {},
        }
    }

    /// Appends the listing of a `Call` expression.
    fn write_expr_call(&self, out: &mut String, e: &Expr, indent: usize)
        requires
            *e is Call,
            fits(self.spaces as nat, indent + expr_height(*e)),
        ensures
            final(out)@ == old(out)@ + expr_out(self.spaces as nat, *e, indent as int),
        decreases e, 0nat,
    {
        let ghost start = out@;
        let ghost sp = self.spaces as nat;
        match e {
            Expr::Call { func, args } => {
                proof {
                    lemma_fits_mono(sp, indent as int, indent + expr_height(*e));
                }
                self.write_indent(out, indent);
                out.append("Call:");
                out.append("\n");
                proof {
                    lemma_fits_mono(sp, indent + 1 + expr_height(**func), indent + expr_height(*e));
                }
                self.write_expr(out, &**func, indent + 1);
                proof {
                    if args@.len() > 0 {
                        lemma_fits_mono(sp, indent + 1 + exprs_height(args@), indent + expr_height(*e));
                    }
                }
                self.write_exprs(out, args, indent);
                assert(out@ =~= start + expr_out(sp, *e, indent as int));
            },
            _ => {},
        }
    }

    /// Appends the listing of an `Action` expression.
    fn write_expr_action(&self, out: &mut String, e: &Expr, indent: usize)
        requires
            *e is Action,
            fits(self.spaces as nat, indent + expr_height(*e)),
        ensures
            final(out)@ == old(out)@ + expr_out(self.spaces as nat, *e, indent as int),
        decreases e, 0nat,
    {
        let ghost start = out@;
        let ghost sp = self.spaces as nat;
        match e {
            Expr::Action(stmts) => {
                proof {
                    lemma_fits_mono(sp, indent as int, indent + expr_height(*e));
                }
                self.write_indent(out, indent);
                out.append("Action:");
                out.append("\n");
                proof {
                    if stmts@.len() > 0 {
                        lemma_fits_mono(sp, indent + 1 + actions_height(stmts@), indent + expr_height(*e));
                    }
                }
                self.write_action_stmts(out, stmts, indent);
                assert(out@ =~= start + expr_out(sp, *e, indent as int));
            },
            _ => {},
        }
    }

    /// Appends the listing of a `MemberAccess` expression.
    fn write_expr_member_access(&self, out: &mut String, e: &Expr, indent: usize)
        requires
            *e is MemberAccess,
            fits(self.spaces as nat, indent + expr_height(*e)),
        ensures
            final(out)@ == old(out)@ + expr_out(self.spaces as nat, *e, indent as int),
        decreases e, 0nat,
    {
        let ghost start = out@;
        let ghost sp = self.spaces as nat;
        match e {
            Expr::MemberAccess {
                service,
                service_id,
                service_binding_id,
                member,
                member_id,
                member_binding_id,
            } => {
                proof {
                    lemma_fits_mono(sp, indent as int, indent + expr_height(*e));
                }
                self.write_indent(out, indent);
                let mut parts: Vec<String> = Vec::new();
                parts.push(quoted_part("service", service.as_str()));
                parts.push(num_part("service_id", service_id.0 as u64));
                parts.push(num_part("service_binding_id", service_binding_id.0 as u64));
                parts.push(quoted_part("member", member.as_str()));
                parts.push(num_part("member_id", member_id.0 as u64));
                parts.push(num_part("member_binding_id", member_binding_id.0 as u64));
                assert(string_views(parts@) =~=
                    name_parts("service"@, service@, *service_id, *service_binding_id, "service_id"@, "service_binding_id"@)
                    + name_parts("member"@, member@, *member_id, *member_binding_id, "member_id"@, "member_binding_id"@)
                );
                write_record(out, "MemberAccess:", &parts);
                out.append("\n");
                assert(out@ =~= start + expr_out(sp, *e, indent as int));
            },
            _ => {},
        }
    }

    /// Appends the listing of a `Select` expression.
    fn write_expr_select(&self, out: &mut String, e: &Expr, indent: usize)
        requires
            *e is Select,
            fits(self.spaces as nat, indent + expr_height(*e)),
        ensures
            final(out)@ == old(out)@ + expr_out(self.spaces as nat, *e, indent as int),
        decreases e, 0nat,
    {
        let ghost start = out@;
        let ghost sp = self.spaces as nat;
        match e {
            Expr::Select {
                table_name,
                table_name_id,
                table_binding_id,
                column_names,
                column_ids,
                where_clause,
            } => {
                proof {
                    lemma_fits_mono(sp, indent as int, indent + expr_height(*e));
                }
                self.write_indent(out, indent);
                let mut parts: Vec<String> = Vec::new();
                parts.push(quoted_part("table_name", table_name.as_str()));
                parts.push(num_part("table_name_id", table_name_id.0 as u64));
                parts.push(num_part("table_binding_id", table_binding_id.0 as u64));
                let mut t = field_start("column_names");
                write_strings_debug(&mut t, column_names);
                parts.push(t);
                let mut t = field_start("column_ids");
                write_raw_id_pairs(&mut t, column_ids);
                parts.push(t);
                assert(string_views(parts@) =~=
                    name_parts("table_name"@, table_name@, *table_name_id, *table_binding_id, "table_name_id"@, "table_binding_id"@)
                    + seq![
                        named("column_names"@, strings_debug(column_names@)),
                        named("column_ids"@, raw_id_pairs(column_ids@)),
                    ]
                );
                write_record(out, "Select:", &parts);
                out.append("\n");
                proof {
                    lemma_fits_mono(sp, indent + 1 + expr_height(**where_clause), indent + expr_height(*e));
                }
                self.write_expr(out, &**where_clause, indent + 1);
                assert(out@ =~= start + expr_out(sp, *e, indent as int));
            },
            _ => {},
        }
    }

    /// Appends the listing of a `Table` expression.
    fn write_expr_table(&self, out: &mut String, e: &Expr, indent: usize)
        requires
            *e is Table,
            fits(self.spaces as nat, indent + expr_height(*e)),
        ensures
            final(out)@ == old(out)@ + expr_out(self.spaces as nat, *e, indent as int),
        decreases e, 0nat,
    {
        let ghost start = out@;
        let ghost sp = self.spaces as nat;
        match e {
            Expr::Table { schema, records } => {
                proof {
                    lemma_fits_mono(sp, indent as int, indent + expr_height(*e));
                }
                self.write_indent(out, indent);
                out.append("Table:");
                out.append("\n");
                proof {
                    if schema@.len() > 0 {
                        lemma_fits_mono(sp, indent + 1, indent + expr_height(*e));
                    }
                }
                self.write_fields(out, schema, indent);
                proof {
                    if records@.len() > 0 {
                        lemma_fits_mono(sp, indent + 1 + exprs_height(records@), indent + expr_height(*e));
                    }
                }
                self.write_exprs(out, records, indent);
                assert(out@ =~= start + expr_out(sp, *e, indent as int));
            },
            _ => {},
        }
    }

    /// Appends the listing of a `Fold` expression.
    fn write_expr_fold(&self, out: &mut String, e: &Expr, indent: usize)
        requires
            *e is Fold,
            fits(self.spaces as nat, indent + expr_height(*e)),
        ensures
            final(out)@ == old(out)@ + expr_out(self.spaces as nat, *e, indent as int),
        decreases e, 0nat,
    {
        let ghost start = out@;
        let ghost sp = self.spaces as nat;
        match e {
            Expr::Fold {
                table_name,
                table_name_id,
                table_binding_id,
                column_name,
                column_name_id,
                column_binding_id,
                operation,
                identity,
            } => {
                proof {
                    lemma_fits_mono(sp, indent as int, indent + expr_height(*e));
                }
                self.write_indent(out, indent);
                let mut parts: Vec<String> = Vec::new();
                parts.push(quoted_part("table_name", table_name.as_str()));
                parts.push(num_part("table_name_id", table_name_id.0 as u64));
                parts.push(num_part("table_binding_id", table_binding_id.0 as u64));
                parts.push(quoted_part("column_name", column_name.as_str()));
                parts.push(num_part("column_name_id", column_name_id.0 as u64));
                parts.push(num_part("column_binding_id", column_binding_id.0 as u64));
                assert(string_views(parts@) =~=
                    name_parts("table_name"@, table_name@, *table_name_id, *table_binding_id, "table_name_id"@, "table_binding_id"@)
                    + name_parts("column_name"@, column_name@, *column_name_id, *column_binding_id, "column_name_id"@, "column_binding_id"@)
                );
                write_record(out, "Fold:", &parts);
                out.append("\n");
                proof {
                    lemma_fits_mono(sp, indent + 1 + expr_height(**operation), indent + expr_height(*e));
                }
                self.write_expr(out, &**operation, indent + 1);
                proof {
                    lemma_fits_mono(sp, indent + 1 + expr_height(**identity), indent + expr_height(*e));
                }
                self.write_expr(out, &**identity, indent + 1);
                assert(out@ =~= start + expr_out(sp, *e, indent as int));
            },
            _ => {},
        }
    }

    fn write_expr(&self, out: &mut String, e: &Expr, indent: usize)
        requires
            fits(self.spaces as nat, indent + expr_height(*e)),
        ensures
            final(out)@ == old(out)@ + expr_out(self.spaces as nat, *e, indent as int),
        decreases e, 1nat,
    {
        match e {
            Expr::Literal { .. } => self.write_expr_literal(out, e, indent),
            Expr::Variable { .. } => self.write_expr_variable(out, e, indent),
            Expr::Tuple { .. } => self.write_expr_tuple(out, e, indent),
            Expr::KeyVal { .. } => self.write_expr_key_val(out, e, indent),
            Expr::Unop { .. } => self.write_expr_unop(out, e, indent),
            Expr::Binop { .. } => self.write_expr_binop(out, e, indent),
            Expr::If { .. } => self.write_expr_if(out, e, indent),
            Expr::Func { .. } => self.write_expr_func(out, e, indent),
            Expr::Call { .. } => self.write_expr_call(out, e, indent),
            Expr::Action(..) => self.write_expr_action(out, e, indent),
            Expr::MemberAccess { .. } => self.write_expr_member_access(out, e, indent),
            Expr::Select { .. } => self.write_expr_select(out, e, indent),
            Expr::Table { .. } => self.write_expr_table(out, e, indent),
            Expr::Fold { .. } => self.write_expr_fold(out, e, indent),
        }
    }

    /// Appends the listing of a `VarDecl` declaration.
    fn write_decl_var_decl(&self, out: &mut String, d: &Decl, indent: usize)
        requires
            *d is VarDecl,
            fits(self.spaces as nat, indent + decl_height(*d)),
        ensures
            final(out)@ == old(out)@ + decl_out(self.spaces as nat, *d, indent as int),
        {
        let ghost start = out@;
        let ghost sp = self.spaces as nat;
        match d {
            Decl::VarDecl { name, name_id, binding_id, val } => {
                proof {
                    lemma_fits_mono(sp, indent as int, indent + decl_height(*d));
                }
                self.write_indent(out, indent);
                let mut parts: Vec<String> = Vec::new();
                parts.push(quoted_part("name", name.as_str()));
                parts.push(num_part("name_id", name_id.0 as u64));
                parts.push(num_part("binding_id", binding_id.0 as u64));
                assert(string_views(parts@) =~=
                    name_parts("name"@, name@, *name_id, *binding_id, "name_id"@, "binding_id"@)
                );
                write_record(out, "VarDecl:", &parts);
                out.append("\n");
                proof {
                    lemma_fits_mono(sp, indent + 1 + expr_height(*val), indent + decl_height(*d));
                }
                self.write_expr(out, val, indent + 1);
                assert(out@ =~= start + decl_out(sp, *d, indent as int));
            },
            _ => {},
        }
    }

    /// Appends the listing of a `DefDecl` declaration.
    fn write_decl_def_decl(&self, out: &mut String, d: &Decl, indent: usize)
        requires
            *d is DefDecl,
            fits(self.spaces as nat, indent + decl_height(*d)),
        ensures
            final(out)@ == old(out)@ + decl_out(self.spaces as nat, *d, indent as int),
        {
        let ghost start = out@;
        let ghost sp = self.spaces as nat;
        match d {
            Decl::DefDecl { name, name_id, binding_id, val, is_pub } => {
                proof {
                    lemma_fits_mono(sp, indent as int, indent + decl_height(*d));
                }
                self.write_indent(out, indent);
                let mut parts: Vec<String> = Vec::new();
                parts.push(quoted_part("name", name.as_str()));
                parts.push(num_part("name_id", name_id.0 as u64));
                parts.push(num_part("binding_id", binding_id.0 as u64));
                let mut t = field_start("is_pub");
                crate::text::push_bool(&mut t, *is_pub);
                parts.push(t);
                assert(string_views(parts@) =~=
                    name_parts("name"@, name@, *name_id, *binding_id, "name_id"@, "binding_id"@)
                    + seq![
                        named("is_pub"@, bool_text(*is_pub)),
                    ]
                );
                write_record(out, "DefDecl:", &parts);
                out.append("\n");
                proof {
                    lemma_fits_mono(sp, indent + 1 + expr_height(*val), indent + decl_height(*d));
                }
                self.write_expr(out, val, indent + 1);
                assert(out@ =~= start + decl_out(sp, *d, indent as int));
            },
            _ => {},
        }
    }

    /// Appends the listing of a `TableDecl` declaration.
    fn write_decl_table_decl(&self, out: &mut String, d: &Decl, indent: usize)
        requires
            *d is TableDecl,
            fits(self.spaces as nat, indent + decl_height(*d)),
        ensures
            final(out)@ == old(out)@ + decl_out(self.spaces as nat, *d, indent as int),
        {
        let ghost start = out@;
        let ghost sp = self.spaces as nat;
        match d {
            Decl::TableDecl { name, name_id, binding_id, fields } => {
                proof {
                    lemma_fits_mono(sp, indent as int, indent + decl_height(*d));
                }
                self.write_indent(out, indent);
                let mut parts: Vec<String> = Vec::new();
                parts.push(quoted_part("name", name.as_str()));
                parts.push(num_part("name_id", name_id.0 as u64));
                parts.push(num_part("binding_id", binding_id.0 as u64));
                assert(string_views(parts@) =~=
                    name_parts("name"@, name@, *name_id, *binding_id, "name_id"@, "binding_id"@)
                );
                write_record(out, "TableDecl:", &parts);
                out.append("\n");
                proof {
                    if fields@.len() > 0 {
                        lemma_fits_mono(sp, indent + 1, indent + decl_height(*d));
                    }
                }
                self.write_fields(out, fields, indent);
                assert(out@ =~= start + decl_out(sp, *d, indent as int));
            },
            _ => {},
        }
    }

    fn write_decl(&self, out: &mut String, d: &Decl, indent: usize)
        requires
            fits(self.spaces as nat, indent + decl_height(*d)),
        ensures
            final(out)@ == old(out)@ + decl_out(self.spaces as nat, *d, indent as int),
    {
        match d {
            Decl::VarDecl { .. } => self.write_decl_var_decl(out, d, indent),
            Decl::DefDecl { .. } => self.write_decl_def_decl(out, d, indent),
            Decl::TableDecl { .. } => self.write_decl_table_decl(out, d, indent),
        }
    }

    /// Appends the listing of an `ActionStmt` statement.
    fn write_stmt_action_stmt(&self, out: &mut String, s: &Stmt, indent: usize)
        requires
            *s is ActionStmt,
            fits(self.spaces as nat, indent + stmt_height(*s)),
        ensures
            final(out)@ == old(out)@ + stmt_out(self.spaces as nat, *s, indent as int),
        {
        let ghost start = out@;
        let ghost sp = self.spaces as nat;
        match s {
            Stmt::ActionStmt(a) => {
                proof {
                    lemma_fits_mono(sp, indent as int, indent + stmt_height(*s));
                }
                self.write_indent(out, indent);
                out.append("ActionStmt:");
                out.append("\n");
                proof {
                    lemma_fits_mono(sp, indent + 1 + action_height(*a), indent + stmt_height(*s));
                }
                self.write_action_stmt(out, a, indent + 1);
                assert(out@ =~= start + stmt_out(sp, *s, indent as int));
            },
            _ => {},
        }
    }

    /// Appends the listing of an `Update` statement.
    fn write_stmt_update(&self, out: &mut String, s: &Stmt, indent: usize)
        requires
            *s is Update,
            fits(self.spaces as nat, indent + stmt_height(*s)),
        ensures
            final(out)@ == old(out)@ + stmt_out(self.spaces as nat, *s, indent as int),
        {
        let ghost start = out@;
        let ghost sp = self.spaces as nat;
        match s {
            Stmt::Update { service, service_id, service_binding_id, decls } => {
                proof {
                    lemma_fits_mono(sp, indent as int, indent + stmt_height(*s));
                }
                self.write_indent(out, indent);
                let mut parts: Vec<String> = Vec::new();
                parts.push(quoted_part("service", service.as_str()));
                parts.push(num_part("service_id", service_id.0 as u64));
                parts.push(num_part("service_binding_id", service_binding_id.0 as u64));
                assert(string_views(parts@) =~=
                    name_parts("service"@, service@, *service_id, *service_binding_id, "service_id"@, "service_binding_id"@)
                );
                write_record(out, "Update:", &parts);
                out.append("\n");
                proof {
                    if decls@.len() > 0 {
                        lemma_fits_mono(sp, indent + 1 + decls_height(decls@), indent + stmt_height(*s));
                    }
                }
                self.write_decls(out, decls, indent);
                assert(out@ =~= start + stmt_out(sp, *s, indent as int));
            },
            _ => {},
        }
    }

    /// Appends the listing of a `Connect` statement.
    fn write_stmt_connect(&self, out: &mut String, s: &Stmt, indent: usize)
        requires
            *s is Connect,
            fits(self.spaces as nat, indent + stmt_height(*s)),
        ensures
            final(out)@ == old(out)@ + stmt_out(self.spaces as nat, *s, indent as int),
        {
        let ghost start = out@;
        let ghost sp = self.spaces as nat;
        match s {
            Stmt::Connect { path, addr } => {
                proof {
                    lemma_fits_mono(sp, indent as int, indent + stmt_height(*s));
                }
                self.write_indent(out, indent);
                let mut parts: Vec<String> = Vec::new();
                parts.push(quoted_part("path", path.as_str()));
                parts.push(quoted_part("addr", addr.as_str()));
                assert(string_views(parts@) =~=
                    seq![
                        named("path"@, quoted(path@)),
                        named("addr"@, quoted(addr@)),
                    ]
                );
                write_record(out, "Connect:", &parts);
                out.append("\n");
                assert(out@ =~= start + stmt_out(sp, *s, indent as int));
            },
            _ => {},
        }
    }

    /// Appends the listing of an `Import` statement.
    fn write_stmt_import(&self, out: &mut String, s: &Stmt, indent: usize)
        requires
            *s is Import,
            fits(self.spaces as nat, indent + stmt_height(*s)),
        ensures
            final(out)@ == old(out)@ + stmt_out(self.spaces as nat, *s, indent as int),
        {
        let ghost start = out@;
        let ghost sp = self.spaces as nat;
        match s {
            Stmt::Import { path, service, service_id, service_binding_id } => {
                proof {
                    lemma_fits_mono(sp, indent as int, indent + stmt_height(*s));
                }
                self.write_indent(out, indent);
                let mut parts: Vec<String> = Vec::new();
                parts.push(quoted_part("path", path.as_str()));
                parts.push(quoted_part("service", service.as_str()));
                parts.push(num_part("service_id", service_id.0 as u64));
                parts.push(num_part("service_binding_id", service_binding_id.0 as u64));
                assert(string_views(parts@) =~=
                    seq![
                        named("path"@, quoted(path@)),
                    ]
                    + name_parts("service"@, service@, *service_id, *service_binding_id, "service_id"@, "service_binding_id"@)
                );
                write_record(out, "Import:", &parts);
                out.append("\n");
                assert(out@ =~= start + stmt_out(sp, *s, indent as int));
            },
            _ => {},
        }
    }

    /// Appends the listing of a `Service` statement.
    fn write_stmt_service(&self, out: &mut String, s: &Stmt, indent: usize)
        requires
            *s is Service,
            fits(self.spaces as nat, indent + stmt_height(*s)),
        ensures
            final(out)@ == old(out)@ + stmt_out(self.spaces as nat, *s, indent as int),
        {
        let ghost start = out@;
        let ghost sp = self.spaces as nat;
        match s {
            Stmt::Service { name, name_id, binding_id, decls } => {
                proof {
                    lemma_fits_mono(sp, indent as int, indent + stmt_height(*s));
                }
                self.write_indent(out, indent);
                let mut parts: Vec<String> = Vec::new();
                parts.push(quoted_part("name", name.as_str()));
                parts.push(num_part("name_id", name_id.0 as u64));
                parts.push(num_part("binding_id", binding_id.0 as u64));
                assert(string_views(parts@) =~=
                    name_parts("name"@, name@, *name_id, *binding_id, "name_id"@, "binding_id"@)
                );
                write_record(out, "Service:", &parts);
                out.append("\n");
                proof {
                    if decls@.len() > 0 {
                        lemma_fits_mono(sp, indent + 1 + decls_height(decls@), indent + stmt_height(*s));
                    }
                }
                self.write_decls(out, decls, indent);
                assert(out@ =~= start + stmt_out(sp, *s, indent as int));
            },
            _ => {},
        }
    }

    /// Appends the listing of a `Test` statement.
    fn write_stmt_test(&self, out: &mut String, s: &Stmt, indent: usize)
        requires
            *s is Test,
            fits(self.spaces as nat, indent + stmt_height(*s)),
        ensures
            final(out)@ == old(out)@ + stmt_out(self.spaces as nat, *s, indent as int),
        {
        let ghost start = out@;
        let ghost sp = self.spaces as nat;
        match s {
            Stmt::Test { service, service_id, service_binding_id, stmts } => {
                proof {
                    lemma_fits_mono(sp, indent as int, indent + stmt_height(*s));
                }
                self.write_indent(out, indent);
                let mut parts: Vec<String> = Vec::new();
                parts.push(quoted_part("service", service.as_str()));
                parts.push(num_part("service_id", service_id.0 as u64));
                parts.push(num_part("service_binding_id", service_binding_id.0 as u64));
                assert(string_views(parts@) =~=
                    name_parts("service"@, service@, *service_id, *service_binding_id, "service_id"@, "service_binding_id"@)
                );
                write_record(out, "Test:", &parts);
                out.append("\n");
                proof {
                    if stmts@.len() > 0 {
                        lemma_fits_mono(sp, indent + 1 + actions_height(stmts@), indent + stmt_height(*s));
                    }
                }
                self.write_action_stmts(out, stmts, indent);
                assert(out@ =~= start + stmt_out(sp, *s, indent as int));
            },
            _ => {},
        }
    }

    /// Appends the listing of a `Watch` statement.
    fn write_stmt_watch(&self, out: &mut String, s: &Stmt, indent: usize)
        requires
            *s is Watch,
            fits(self.spaces as nat, indent + stmt_height(*s)),
        ensures
            final(out)@ == old(out)@ + stmt_out(self.spaces as nat, *s, indent as int),
        {
        let ghost start = out@;
        let ghost sp = self.spaces as nat;
        match s {
            Stmt::Watch { expr } => {
                proof {
                    lemma_fits_mono(sp, indent as int, indent + stmt_height(*s));
                }
                self.write_indent(out, indent);
                out.append("Watch:");
                out.append("\n");
                proof {
                    lemma_fits_mono(sp, indent + 1 + expr_height(*expr), indent + stmt_height(*s));
                }
                self.write_expr(out, expr, indent + 1);
                assert(out@ =~= start + stmt_out(sp, *s, indent as int));
            },
            _ => {},
        }
    }

    fn write_stmt(&self, out: &mut String, s: &Stmt, indent: usize)
        requires
            fits(self.spaces as nat, indent + stmt_height(*s)),
        ensures
            final(out)@ == old(out)@ + stmt_out(self.spaces as nat, *s, indent as int),
    {
        match s {
            Stmt::ActionStmt(..) => self.write_stmt_action_stmt(out, s, indent),
            Stmt::Update { .. } => self.write_stmt_update(out, s, indent),
            Stmt::Connect { .. } => self.write_stmt_connect(out, s, indent),
            Stmt::Import { .. } => self.write_stmt_import(out, s, indent),
            Stmt::Service { .. } => self.write_stmt_service(out, s, indent),
            Stmt::Test { .. } => self.write_stmt_test(out, s, indent),
            Stmt::Watch { .. } => self.write_stmt_watch(out, s, indent),
        }
    }

    /// The text that printing the program writes: every statement at level
    /// zero, one after the other.
    pub fn print_program(&self, stmts: &[Stmt]) -> (res: String)
        requires
            fits(self.spaces_per_level(), stmts_height(stmts@) as int),
        ensures
            res@ == program_out(self.spaces_per_level(), stmts@),
    {
        let mut out = String::new();
        let ghost sp = self.spaces as nat;
        let mut i: usize = 0;
        while i < stmts.len()
            invariant
                i <= stmts.len(),
                sp == self.spaces as nat,
                fits(sp, stmts_height(stmts@) as int),
                out@ == program_out(sp, stmts@.take(i as int)),
            decreases stmts.len() - i,
        {
            proof {
                lemma_stmts_height(stmts@, i as int);
                lemma_fits_mono(sp, stmt_height(stmts@[i as int]) as int, stmts_height(stmts@) as int);
            }
            self.write_stmt(&mut out, &stmts[i], 0);
            proof {
                let s = stmts@.take(i + 1);
                assert(s.drop_last() =~= stmts@.take(i as int));
                assert(out@ =~= program_out(sp, s));
            }
            i = i + 1;
        }
        assert(stmts@.take(stmts@.len() as int) =~= stmts@);
        out
    }

    /// The text that printing a statement at level `indent` writes.
    pub fn print_stmt(&self, stmt: &Stmt, indent: usize) -> (res: String)
        requires
            fits(self.spaces_per_level(), indent + stmt_height(*stmt)),
        ensures
            res@ == stmt_out(self.spaces_per_level(), *stmt, indent as int),
    {
        let mut out = String::new();
        self.write_stmt(&mut out, stmt, indent);
        assert(out@ =~= stmt_out(self.spaces as nat, *stmt, indent as int));
        out
    }

    /// The text that printing a declaration at level `indent` writes.
    pub fn print_decl(&self, decl: &Decl, indent: usize) -> (res: String)
        requires
            fits(self.spaces_per_level(), indent + decl_height(*decl)),
        ensures
            res@ == decl_out(self.spaces_per_level(), *decl, indent as int),
    {
        let mut out = String::new();
        self.write_decl(&mut out, decl, indent);
        assert(out@ =~= decl_out(self.spaces as nat, *decl, indent as int));
        out
    }

    /// The text that printing an action statement at level `indent` writes.
    pub fn print_action_stmt(&self, stmt: &ActionStmt, indent: usize) -> (res: String)
        requires
            fits(self.spaces_per_level(), indent + action_height(*stmt)),
        ensures
            res@ == action_out(self.spaces_per_level(), *stmt, indent as int),
    {
        let mut out = String::new();
        self.write_action_stmt(&mut out, stmt, indent);
        assert(out@ =~= action_out(self.spaces as nat, *stmt, indent as int));
        out
    }

    /// The text that printing an expression at level `indent` writes.
    pub fn print_expr(&self, expr: &Expr, indent: usize) -> (res: String)
        requires
            fits(self.spaces_per_level(), indent + expr_height(*expr)),
        ensures
            res@ == expr_out(self.spaces_per_level(), *expr, indent as int),
    {
        let mut out = String::new();
        self.write_expr(&mut out, expr, indent);
        assert(out@ =~= expr_out(self.spaces as nat, *expr, indent as int));
        out
    }

    /// The text that printing a value at level `indent` writes.
    pub fn print_value(&self, val: &Value, indent: usize) -> (res: String)
        requires
            fits(self.spaces_per_level(), indent + value_height(*val)),
        ensures
            res@ == value_out(self.spaces_per_level(), *val, indent as int),
    {
        let mut out = String::new();
        self.write_value(&mut out, val, indent);
        assert(out@ =~= value_out(self.spaces as nat, *val, indent as int));
        out
    }
}

impl Default for AstPrinter {
    fn default() -> (res: Self)
        ensures
            res.spaces_per_level() == 2,
    {
        Self::new()
    }
}


// ---------------------------------------------------------------------------
// Computing heights, to tell before printing whether the levels fit.

/// `Some` of the height when it fits in `usize`, `None` when it does not.
pub open spec fn height_result(r: Option<usize>, h: nat) -> bool {
    match r {
        Some(v) => v == h,
        None => h > usize::MAX,
    }
}

/// One more than `h`, if that fits.
fn above(h: Option<usize>) -> (res: Option<usize>)
    ensures
        forall|n: nat| height_result(h, n) ==> height_result(res, n + 1),
{
    match h {
        Some(v) => v.checked_add(1),
        None => None,
    }
}

/// The larger of two heights, if both fit.
fn larger(a: Option<usize>, b: Option<usize>) -> (res: Option<usize>)
    ensures
        forall|x: nat, y: nat| height_result(a, x) && height_result(b, y) ==> height_result(res, max(x, y)),
{
    match (a, b) {
        (Some(x), Some(y)) => if x < y {
            Some(y)
        } else {
            Some(x)
        },
        _ => None,
    }
}

fn exprs_height_of(v: &Vec<Expr>) -> (res: Option<usize>)
    ensures
        height_result(res, exprs_height(v@)),
    decreases v, 0nat,
{
    let mut acc: Option<usize> = Some(0);
    let mut i: usize = 0;
    while i < v.len()
        invariant
            i <= v.len(),
            height_result(acc, exprs_height(v@.take(i as int))),
        decreases v.len() - i,
    {
        let h = expr_height_of(&v[i]);
        proof {
            assert(v@.take(i + 1).drop_last() =~= v@.take(i as int));
        }
        acc = larger(acc, h);
        i = i + 1;
    }
    assert(v@.take(v.len() as int) =~= v@);
    acc
}

fn actions_height_of(v: &Vec<ActionStmt>) -> (res: Option<usize>)
    ensures
        height_result(res, actions_height(v@)),
    decreases v, 0nat,
{
    let mut acc: Option<usize> = Some(0);
    let mut i: usize = 0;
    while i < v.len()
        invariant
            i <= v.len(),
            height_result(acc, actions_height(v@.take(i as int))),
        decreases v.len() - i,
    {
        let h = action_height_of(&v[i]);
        proof {
            assert(v@.take(i + 1).drop_last() =~= v@.take(i as int));
        }
        acc = larger(acc, h);
        i = i + 1;
    }
    assert(v@.take(v.len() as int) =~= v@);
    acc
}

fn value_height_of(v: &Value) -> (res: Option<usize>)
    ensures
        height_result(res, value_height(*v)),
    decreases v, 1nat,
{
    match v {
        Value::Closure { body, .. } => above(expr_height_of(&**body)),
        Value::ActionClosure { stmts, .. } => if stmts.len() == 0 {
            Some(0)
        } else {
            above(actions_height_of(stmts))
        },
        _ => Some(0),
    }
}

fn action_height_of(a: &ActionStmt) -> (res: Option<usize>)
    ensures
        height_result(res, action_height(*a)),
    decreases a, 1nat,
{
    match a {
        ActionStmt::Let { expr, .. } => above(expr_height_of(expr)),
        ActionStmt::Expr(e) => above(expr_height_of(e)),
        ActionStmt::Do(e) => above(expr_height_of(e)),
        ActionStmt::Assert(e) => above(expr_height_of(e)),
        ActionStmt::Assign { expr, .. } => above(expr_height_of(expr)),
        ActionStmt::Insert { row, .. } => above(expr_height_of(row)),
    }
}

fn expr_height_of(e: &Expr) -> (res: Option<usize>)
    ensures
        height_result(res, expr_height(*e)),
    decreases e, 1nat,
{
    match e {
        Expr::Literal { val } => above(value_height_of(val)),
        Expr::Variable { .. } => Some(0),
        Expr::Tuple { val } => if val.len() == 0 {
            Some(0)
        } else {
            above(exprs_height_of(val))
        },
        Expr::KeyVal { value, .. } => above(expr_height_of(&**value)),
        Expr::Unop { expr, .. } => above(expr_height_of(&**expr)),
        Expr::Binop { expr1, expr2, .. } => above(larger(expr_height_of(&**expr1), expr_height_of(&**expr2))),
        Expr::If { cond, expr1, expr2 } => above(
            larger(expr_height_of(&**cond), larger(expr_height_of(&**expr1), expr_height_of(&**expr2))),
        ),
        Expr::Func { body, .. } => above(expr_height_of(&**body)),
        Expr::Call { func, args } => above(larger(expr_height_of(&**func), exprs_height_of(args))),
        Expr::Action(stmts) => if stmts.len() == 0 {
            Some(0)
        } else {
            above(actions_height_of(stmts))
        },
        Expr::MemberAccess { .. } => Some(0),
        Expr::Select { where_clause, .. } => above(expr_height_of(&**where_clause)),
        Expr::Table { schema, records } => if schema.len() == 0 && records.len() == 0 {
            Some(0)
        } else {
            above(exprs_height_of(records))
        },
        Expr::Fold { operation, identity, .. } => above(
            larger(expr_height_of(&**operation), expr_height_of(&**identity)),
        ),
    }
}

fn decl_height_of(d: &Decl) -> (res: Option<usize>)
    ensures
        height_result(res, decl_height(*d)),
{
    match d {
        Decl::VarDecl { val, .. } => above(expr_height_of(val)),
        Decl::DefDecl { val, .. } => above(expr_height_of(val)),
        Decl::TableDecl { fields, .. } => if fields.len() == 0 {
            Some(0)
        } else {
            Some(1)
        },
    }
}

fn decls_height_of(v: &Vec<Decl>) -> (res: Option<usize>)
    ensures
        height_result(res, decls_height(v@)),
{
    let mut acc: Option<usize> = Some(0);
    let mut i: usize = 0;
    while i < v.len()
        invariant
            i <= v.len(),
            height_result(acc, decls_height(v@.take(i as int))),
        decreases v.len() - i,
    {
        let h = decl_height_of(&v[i]);
        proof {
            assert(v@.take(i + 1).drop_last() =~= v@.take(i as int));
        }
        acc = larger(acc, h);
        i = i + 1;
    }
    assert(v@.take(v.len() as int) =~= v@);
    acc
}

fn stmt_height_of(s: &Stmt) -> (res: Option<usize>)
    ensures
        height_result(res, stmt_height(*s)),
{
    match s {
        Stmt::ActionStmt(a) => above(action_height_of(a)),
        Stmt::Update { decls, .. } => if decls.len() == 0 {
            Some(0)
        } else {
            above(decls_height_of(decls))
        },
        Stmt::Connect { .. } => Some(0),
        Stmt::Import { .. } => Some(0),
        Stmt::Service { decls, .. } => if decls.len() == 0 {
            Some(0)
        } else {
            above(decls_height_of(decls))
        },
        Stmt::Test { stmts, .. } => if stmts.len() == 0 {
            Some(0)
        } else {
            above(actions_height_of(stmts))
        },
        Stmt::Watch { expr } => above(expr_height_of(expr)),
    }
}

/// Whether printing at levels up to `h` more than `indent` stays within
/// `usize`.
fn fits_below(spaces: usize, indent: usize, h: Option<usize>) -> (res: bool)
    ensures
        forall|n: nat| height_result(h, n) ==> res == fits(spaces as nat, indent + n),
{
    match h {
        Some(v) => match indent.checked_add(v) {
            Some(d) => d.checked_mul(spaces).is_some(),
            None => false,
        },
        None => false,
    }
}

impl AstPrinter {
    /// Whether `print_program` can print `stmts`: every level it reaches,
    /// and the blanks of that level, fit in `usize`.
    pub fn can_print_program(&self, stmts: &[Stmt]) -> (res: bool)
        ensures
            res == fits(self.spaces_per_level(), stmts_height(stmts@) as int),
    {
        let mut acc: Option<usize> = Some(0);
        let mut i: usize = 0;
        while i < stmts.len()
            invariant
                i <= stmts@.len(),
                height_result(acc, stmts_height(stmts@.take(i as int))),
            decreases stmts@.len() - i,
        {
            let h = stmt_height_of(&stmts[i]);
            proof {
                assert(stmts@.take(i + 1).drop_last() =~= stmts@.take(i as int));
            }
            acc = larger(acc, h);
            i = i + 1;
        }
        assert(stmts@.take(stmts@.len() as int) =~= stmts@);
        fits_below(self.spaces, 0, acc)
    }
}

} // verus!
