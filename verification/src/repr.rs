//! The `Debug` form of syntax trees, as `#[derive(Debug)]` writes it:
//! `Name { field: value, .. }` for variants with named fields, `Name(value)`
//! for tuple variants, lists between square brackets, strings quoted.
use vstd::prelude::*;
use crate::ast::{ActionStmt, BinOp, DataType, Expr, Field, UnOp, Value};
use crate::binding_id::BindingId;
use crate::symbol::Symbol;
use crate::text::{bool_text, int_text, join, nat_text, str_debug, string_views};

verus! {

/// `[` + `items` + `]`.
pub open spec fn bracketed(items: Seq<char>) -> Seq<char> {
    "["@ + items + "]"@
}

/// `name: value`, the form of one named field.
pub open spec fn named(name: Seq<char>, value: Seq<char>) -> Seq<char> {
    name + ": "@ + value
}

/// `Name { f1: v1, f2: v2, .. }`.
pub open spec fn record(name: Seq<char>, fields: Seq<Seq<char>>) -> Seq<char> {
    name + " { "@ + join(fields, ", "@) + " }"@
}

/// `Name(value)`.
pub open spec fn wrapped(name: Seq<char>, value: Seq<char>) -> Seq<char> {
    name + "("@ + value + ")"@
}

pub open spec fn symbol_debug(s: Symbol) -> Seq<char> {
    wrapped("Symbol"@, nat_text(s.0 as nat))
}

pub open spec fn binding_debug(b: BindingId) -> Seq<char> {
    wrapped("BindingId"@, nat_text(b.0 as nat))
}

/// `(Symbol(n), BindingId(m))`.
pub open spec fn id_pair_debug(p: (Symbol, BindingId)) -> Seq<char> {
    "("@ + symbol_debug(p.0) + ", "@ + binding_debug(p.1) + ")"@
}

pub open spec fn id_pairs_debug(s: Seq<(Symbol, BindingId)>) -> Seq<char> {
    bracketed(join(s.map_values(|p: (Symbol, BindingId)| id_pair_debug(p)), ", "@))
}

pub open spec fn strings_debug(s: Seq<String>) -> Seq<char> {
    bracketed(join(s.map_values(|x: String| str_debug(x@)), ", "@))
}

pub open spec fn unop_name(op: UnOp) -> Seq<char> {
    match op {
        UnOp::Neg => "Neg"@,
        UnOp::Not => "Not"@,
    }
}

pub open spec fn binop_name(op: BinOp) -> Seq<char> {
    match op {
        BinOp::Add => "Add"@,
        BinOp::Sub => "Sub"@,
        BinOp::Mul => "Mul"@,
        BinOp::Div => "Div"@,
        BinOp::Eq => "Eq"@,
        BinOp::Lt => "Lt"@,
        BinOp::Gt => "Gt"@,
        BinOp::And => "And"@,
        BinOp::Or => "Or"@,
    }
}

pub open spec fn datatype_name(t: DataType) -> Seq<char> {
    match t {
        DataType::String => "String"@,
        DataType::Number => "Number"@,
        DataType::Bool => "Bool"@,
    }
}

pub open spec fn field_debug(f: Field) -> Seq<char> {
    record(
        "Field"@,
        seq![
            named("name"@, str_debug(f.name@)),
            named("name_id"@, symbol_debug(f.name_id)),
            named("binding_id"@, binding_debug(f.binding_id)),
            named("type_"@, datatype_name(f.type_)),
        ],
    )
}

pub open spec fn fields_debug(s: Seq<Field>) -> Seq<char> {
    bracketed(join(s.map_values(|f: Field| field_debug(f)), ", "@))
}

/// The `Debug` form of a value.
pub open spec fn value_debug(v: Value) -> Seq<char>
    decreases v,
{
    match v {
        Value::Number { val } => record("Number"@, seq![named("val"@, int_text(val as int))]),
        Value::Bool { val } => record("Bool"@, seq![named("val"@, bool_text(val))]),
        Value::String { val } => record("String"@, seq![named("val"@, str_debug(val@))]),
        Value::Closure {
            params,
            param_ids,
            body,
            env,
            service_name,
            service_name_id,
            service_name_binding_id,
        } => record(
            "Closure"@,
            seq![
                named("params"@, strings_debug(params@)),
                named("param_ids"@, id_pairs_debug(param_ids@)),
                named("body"@, expr_debug(*body)),
                named("env"@, bracketed(env_items(env@))),
                named("service_name"@, str_debug(service_name@)),
                named("service_name_id"@, symbol_debug(service_name_id)),
                named("service_name_binding_id"@, binding_debug(service_name_binding_id)),
            ],
        ),
        Value::ActionClosure {
            stmts,
            env,
            service_name,
            service_name_id,
            service_name_binding_id,
        } => record(
            "ActionClosure"@,
            seq![
                named("stmts"@, bracketed(action_items(stmts@))),
                named("env"@, bracketed(env_items(env@))),
                named("service_name"@, str_debug(service_name@)),
                named("service_name_id"@, symbol_debug(service_name_id)),
                named("service_name_binding_id"@, binding_debug(service_name_binding_id)),
            ],
        ),
    }
}

/// The entries of an environment, each as `("name", value)`, separated by
/// `, `.
pub open spec fn env_items(s: Seq<(String, Value)>) -> Seq<char>
    decreases s,
{
    if s.len() == 0 {
        Seq::empty()
    } else {
        let last = "("@ + str_debug(s.last().0@) + ", "@ + value_debug(s.last().1) + ")"@;
        if s.len() == 1 {
            last
        } else {
            env_items(s.drop_last()) + ", "@ + last
        }
    }
}

/// The `Debug` forms of the expressions, separated by `, `.
pub open spec fn expr_items(s: Seq<Expr>) -> Seq<char>
    decreases s,
{
    if s.len() == 0 {
        Seq::empty()
    } else if s.len() == 1 {
        expr_debug(s.last())
    } else {
        expr_items(s.drop_last()) + ", "@ + expr_debug(s.last())
    }
}

/// The `Debug` forms of the statements, separated by `, `.
pub open spec fn action_items(s: Seq<ActionStmt>) -> Seq<char>
    decreases s,
{
    if s.len() == 0 {
        Seq::empty()
    } else if s.len() == 1 {
        action_stmt_debug(s.last())
    } else {
        action_items(s.drop_last()) + ", "@ + action_stmt_debug(s.last())
    }
}

/// The `Debug` form of an action statement.
pub open spec fn action_stmt_debug(a: ActionStmt) -> Seq<char>
    decreases a,
{
    match a {
        ActionStmt::Let { name, expr, name_id, binding_id } => record(
            "Let"@,
            seq![
                named("name"@, str_debug(name@)),
                named("expr"@, expr_debug(expr)),
                named("name_id"@, symbol_debug(name_id)),
                named("binding_id"@, binding_debug(binding_id)),
            ],
        ),
        ActionStmt::Expr(e) => wrapped("Expr"@, expr_debug(e)),
        ActionStmt::Do(e) => wrapped("Do"@, expr_debug(e)),
        ActionStmt::Assert(e) => wrapped("Assert"@, expr_debug(e)),
        ActionStmt::Assign { var, name_id, binding_id, expr } => record(
            "Assign"@,
            seq![
                named("var"@, str_debug(var@)),
                named("name_id"@, symbol_debug(name_id)),
                named("binding_id"@, binding_debug(binding_id)),
                named("expr"@, expr_debug(expr)),
            ],
        ),
        ActionStmt::Insert { row, table_name, table_name_id, table_binding_id } => record(
            "Insert"@,
            seq![
                named("row"@, expr_debug(row)),
                named("table_name"@, str_debug(table_name@)),
                named("table_name_id"@, symbol_debug(table_name_id)),
                named("table_binding_id"@, binding_debug(table_binding_id)),
            ],
        ),
    }
}

/// The `Debug` form of an expression.
pub open spec fn expr_debug(e: Expr) -> Seq<char>
    decreases e,
{
    match e {
        Expr::Literal { val } => record("Literal"@, seq![named("val"@, value_debug(val))]),
        Expr::Variable { ident, name_id, binding_id } => record(
            "Variable"@,
            seq![
                named("ident"@, str_debug(ident@)),
                named("name_id"@, symbol_debug(name_id)),
                named("binding_id"@, binding_debug(binding_id)),
            ],
        ),
        Expr::Tuple { val } => record("Tuple"@, seq![named("val"@, bracketed(expr_items(val@)))]),
        Expr::KeyVal { key, key_id, key_binding_id, value } => record(
            "KeyVal"@,
            seq![
                named("key"@, str_debug(key@)),
                named("key_id"@, symbol_debug(key_id)),
                named("key_binding_id"@, binding_debug(key_binding_id)),
                named("value"@, expr_debug(*value)),
            ],
        ),
        Expr::Unop { op, expr } => record(
            "Unop"@,
            seq![named("op"@, unop_name(op)), named("expr"@, expr_debug(*expr))],
        ),
        Expr::Binop { op, expr1, expr2 } => record(
            "Binop"@,
            seq![
                named("op"@, binop_name(op)),
                named("expr1"@, expr_debug(*expr1)),
                named("expr2"@, expr_debug(*expr2)),
            ],
        ),
        Expr::If { cond, expr1, expr2 } => record(
            "If"@,
            seq![
                named("cond"@, expr_debug(*cond)),
                named("expr1"@, expr_debug(*expr1)),
                named("expr2"@, expr_debug(*expr2)),
            ],
        ),
        Expr::Func { params, param_ids, body } => record(
            "Func"@,
            seq![
                named("params"@, strings_debug(params@)),
                named("param_ids"@, id_pairs_debug(param_ids@)),
                named("body"@, expr_debug(*body)),
            ],
        ),
        Expr::Call { func, args } => record(
            "Call"@,
            seq![named("func"@, expr_debug(*func)), named("args"@, bracketed(expr_items(args@)))],
        ),
        Expr::Action(stmts) => wrapped("Action"@, bracketed(action_items(stmts@))),
        Expr::MemberAccess {
            service,
            service_id,
            service_binding_id,
            member,
            member_id,
            member_binding_id,
        } => record(
            "MemberAccess"@,
            seq![
                named("service"@, str_debug(service@)),
                named("service_id"@, symbol_debug(service_id)),
                named("service_binding_id"@, binding_debug(service_binding_id)),
                named("member"@, str_debug(member@)),
                named("member_id"@, symbol_debug(member_id)),
                named("member_binding_id"@, binding_debug(member_binding_id)),
            ],
        ),
        Expr::Select {
            table_name,
            table_name_id,
            table_binding_id,
            column_names,
            column_ids,
            where_clause,
        } => record(
            "Select"@,
            seq![
                named("table_name"@, str_debug(table_name@)),
                named("table_name_id"@, symbol_debug(table_name_id)),
                named("table_binding_id"@, binding_debug(table_binding_id)),
                named("column_names"@, strings_debug(column_names@)),
                named("column_ids"@, id_pairs_debug(column_ids@)),
                named("where_clause"@, expr_debug(*where_clause)),
            ],
        ),
        Expr::Table { schema, records } => record(
            "Table"@,
            seq![
                named("schema"@, fields_debug(schema@)),
                named("records"@, bracketed(expr_items(records@))),
            ],
        ),
        Expr::Fold {
            table_name,
            table_name_id,
            table_binding_id,
            column_name,
            column_name_id,
            column_binding_id,
            operation,
            identity,
        } => record(
            "Fold"@,
            seq![
                named("table_name"@, str_debug(table_name@)),
                named("table_name_id"@, symbol_debug(table_name_id)),
                named("table_binding_id"@, binding_debug(table_binding_id)),
                named("column_name"@, str_debug(column_name@)),
                named("column_name_id"@, symbol_debug(column_name_id)),
                named("column_binding_id"@, binding_debug(column_binding_id)),
                named("operation"@, expr_debug(*operation)),
                named("identity"@, expr_debug(*identity)),
            ],
        ),
    }
}

} // verus!

verus! {

fn write_symbol(out: &mut String, s: Symbol)
    ensures final(out)@ == old(out)@ + symbol_debug(s),
{
    out.append("Symbol");
    out.append("(");
    crate::text::push_u64(out, s.0 as u64);
    out.append(")");
    assert(out@ =~= old(out)@ + symbol_debug(s));
}

fn write_binding(out: &mut String, b: BindingId)
    ensures final(out)@ == old(out)@ + binding_debug(b),
{
    out.append("BindingId");
    out.append("(");
    crate::text::push_u64(out, b.0);
    out.append(")");
    assert(out@ =~= old(out)@ + binding_debug(b));
}

/// One step of a joined list: joining one more part appends the separator
/// (when there was a part before) and the part.
pub(crate) proof fn lemma_join_step(parts: Seq<Seq<char>>, i: int, sep: Seq<char>)
    requires 0 <= i < parts.len(),
    ensures
        join(parts.take(i + 1), sep) == (if i == 0 { Seq::empty() } else { join(parts.take(i), sep) + sep }) + parts[i],
{
    assert(parts.take(i + 1).drop_last() =~= parts.take(i));
    if i == 0 {
        assert(Seq::<char>::empty() + parts[i] =~= parts[i]);
    }
}

pub(crate) fn write_unop_name(out: &mut String, op: UnOp)
    ensures final(out)@ == old(out)@ + unop_name(op),
{
    match op {
        UnOp::Neg => out.append("Neg"),
        UnOp::Not => out.append("Not"),
    }
}

pub(crate) fn write_binop_name(out: &mut String, op: BinOp)
    ensures final(out)@ == old(out)@ + binop_name(op),
{
    match op {
        BinOp::Add => out.append("Add"),
        BinOp::Sub => out.append("Sub"),
        BinOp::Mul => out.append("Mul"),
        BinOp::Div => out.append("Div"),
        BinOp::Eq => out.append("Eq"),
        BinOp::Lt => out.append("Lt"),
        BinOp::Gt => out.append("Gt"),
        BinOp::And => out.append("And"),
        BinOp::Or => out.append("Or"),
    }
}

pub(crate) fn write_datatype_name(out: &mut String, t: DataType)
    ensures final(out)@ == old(out)@ + datatype_name(t),
{
    match t {
        DataType::String => out.append("String"),
        DataType::Number => out.append("Number"),
        DataType::Bool => out.append("Bool"),
    }
}

/// Appends `[p1, p2, ..]`, each string in its `Debug` form.
pub fn write_strings_debug(out: &mut String, v: &Vec<String>)
    ensures final(out)@ == old(out)@ + strings_debug(v@),
{
    let ghost start = out@;
    let ghost parts = v@.map_values(|x: String| str_debug(x@));
    out.append("[");
    let mut i: usize = 0;
    while i < v.len()
        invariant
            i <= v.len(),
            parts == v@.map_values(|x: String| str_debug(x@)),
            out@ == start + "["@ + join(parts.take(i as int), ", "@),
        decreases v.len() - i,
    {
        if i > 0 {
            out.append(", ");
        }
        crate::text::push_str_debug(out, v[i].as_str());
        proof {
            lemma_join_step(parts, i as int, ", "@);
        }
        i = i + 1;
    }
    out.append("]");
    assert(parts.take(v.len() as int) =~= parts);
}

/// Appends `[(Symbol(a), BindingId(b)), ..]`.
pub fn write_id_pairs_debug(out: &mut String, v: &Vec<(Symbol, BindingId)>)
    ensures final(out)@ == old(out)@ + id_pairs_debug(v@),
{
    let ghost start = out@;
    let ghost parts = v@.map_values(|p: (Symbol, BindingId)| id_pair_debug(p));
    out.append("[");
    let mut i: usize = 0;
    while i < v.len()
        invariant
            i <= v.len(),
            parts == v@.map_values(|p: (Symbol, BindingId)| id_pair_debug(p)),
            out@ == start + "["@ + join(parts.take(i as int), ", "@),
        decreases v.len() - i,
    {
        let ghost before = out@;
        if i > 0 {
            out.append(", ");
        }
        let ghost mid = out@;
        out.append("(");
        write_symbol(out, v[i].0);
        out.append(", ");
        write_binding(out, v[i].1);
        out.append(")");
        assert(out@ =~= mid + id_pair_debug(v@[i as int]));
        proof {
            lemma_join_step(parts, i as int, ", "@);
        }
        i = i + 1;
    }
    out.append("]");
    assert(parts.take(v.len() as int) =~= parts);
}

/// Appends the `Debug` form of a column.
pub fn write_field_debug(out: &mut String, f: &Field)
    ensures
        final(out)@ == old(out)@ + field_debug(*f),
{
    let mut t0 = field_start("name");
    crate::text::push_str_debug(&mut t0, f.name.as_str());
    let mut t1 = field_start("name_id");
    write_symbol(&mut t1, f.name_id);
    let mut t2 = field_start("binding_id");
    write_binding(&mut t2, f.binding_id);
    let mut t3 = field_start("type_");
    write_datatype_name(&mut t3, f.type_);
    let parts = vec![t0, t1, t2, t3];
    assert(string_views(parts@) =~= seq![
        named("name"@, str_debug(f.name@)),
        named("name_id"@, symbol_debug(f.name_id)),
        named("binding_id"@, binding_debug(f.binding_id)),
        named("type_"@, datatype_name(f.type_)),
    ]);
    write_record(out, "Field", &parts);
}

/// Appends `[..]` with the `Debug` forms of the columns.
pub fn write_fields_debug(out: &mut String, v: &Vec<Field>)
    ensures final(out)@ == old(out)@ + fields_debug(v@),
{
    let ghost start = out@;
    let ghost parts = v@.map_values(|f: Field| field_debug(f));
    out.append("[");
    let mut i: usize = 0;
    while i < v.len()
        invariant
            i <= v.len(),
            parts == v@.map_values(|f: Field| field_debug(f)),
            out@ == start + "["@ + join(parts.take(i as int), ", "@),
        decreases v.len() - i,
    {
        if i > 0 {
            out.append(", ");
        }
        write_field_debug(out, &v[i]);
        proof {
            lemma_join_step(parts, i as int, ", "@);
        }
        i = i + 1;
    }
    out.append("]");
    assert(parts.take(v.len() as int) =~= parts);
}

/// Appends `[..]` with the entries of an environment.
pub fn write_env_list(out: &mut String, env: &Vec<(String, Value)>)
    ensures final(out)@ == old(out)@ + bracketed(env_items(env@)),
    decreases env, 0nat,
{
    let ghost start = out@;
    out.append("[");
    let mut i: usize = 0;
    while i < env.len()
        invariant
            i <= env.len(),
            out@ == start + "["@ + env_items(env@.take(i as int)),
        decreases env.len() - i,
    {
        let ghost before = out@;
        if i > 0 {
            out.append(", ");
        }
        out.append("(");
        crate::text::push_str_debug(out, env[i].0.as_str());
        out.append(", ");
        write_value_debug(out, &env[i].1);
        out.append(")");
        proof {
            let s = env@.take(i + 1);
            assert(s.drop_last() =~= env@.take(i as int));
            assert(s.last() == env@[i as int]);
            if i == 0 {
                assert(out@ =~= start + "["@ + env_items(s));
            } else {
                assert(out@ =~= start + "["@ + env_items(s));
            }
        }
        i = i + 1;
    }
    out.append("]");
    assert(env@.take(env.len() as int) =~= env@);
}

/// Appends `[..]` with the `Debug` forms of the expressions.
pub fn write_expr_list(out: &mut String, v: &Vec<Expr>)
    ensures final(out)@ == old(out)@ + bracketed(expr_items(v@)),
    decreases v, 0nat,
{
    let ghost start = out@;
    out.append("[");
    let mut i: usize = 0;
    while i < v.len()
        invariant
            i <= v.len(),
            out@ == start + "["@ + expr_items(v@.take(i as int)),
        decreases v.len() - i,
    {
        if i > 0 {
            out.append(", ");
        }
        write_expr_debug(out, &v[i]);
        proof {
            let s = v@.take(i + 1);
            assert(s.drop_last() =~= v@.take(i as int));
            assert(s.last() == v@[i as int]);
            assert(out@ =~= start + "["@ + expr_items(s));
        }
        i = i + 1;
    }
    out.append("]");
    assert(v@.take(v.len() as int) =~= v@);
}

/// Appends `[..]` with the `Debug` forms of the statements.
pub fn write_action_list(out: &mut String, v: &Vec<ActionStmt>)
    ensures final(out)@ == old(out)@ + bracketed(action_items(v@)),
    decreases v, 0nat,
{
    let ghost start = out@;
    out.append("[");
    let mut i: usize = 0;
    while i < v.len()
        invariant
            i <= v.len(),
            out@ == start + "["@ + action_items(v@.take(i as int)),
        decreases v.len() - i,
    {
        if i > 0 {
            out.append(", ");
        }
        write_action_stmt_debug(out, &v[i]);
        proof {
            let s = v@.take(i + 1);
            assert(s.drop_last() =~= v@.take(i as int));
            assert(s.last() == v@[i as int]);
            assert(out@ =~= start + "["@ + action_items(s));
        }
        i = i + 1;
    }
    out.append("]");
    assert(v@.take(v.len() as int) =~= v@);
}

/// A fresh string holding `name: `.
pub(crate) fn field_start(name: &str) -> (res: String)
    ensures
        res@ == name@ + ": "@,
{
    let mut res = String::new();
    res.append(name);
    res.append(": ");
    assert(res@ =~= name@ + ": "@);
    res
}

/// Appends `name { p1, p2, .. }`.
pub(crate) fn write_record(out: &mut String, name: &str, parts: &Vec<String>)
    ensures
        final(out)@ == old(out)@ + record(name@, string_views(parts@)),
{
    let ghost start = out@;
    let ghost views = string_views(parts@);
    out.append(name);
    out.append(" { ");
    let mut i: usize = 0;
    while i < parts.len()
        invariant
            i <= parts.len(),
            views == string_views(parts@),
            out@ == start + name@ + " { "@ + join(views.take(i as int), ", "@),
        decreases parts.len() - i,
    {
        if i > 0 {
            out.append(", ");
        }
        out.append(parts[i].as_str());
        proof {
            lemma_join_step(views, i as int, ", "@);
        }
        i = i + 1;
    }
    out.append(" }");
    assert(views.take(parts.len() as int) =~= views);
}

/// Appends the `Debug` form of a `Number` value.
fn write_value_number(out: &mut String, v: &Value)
    requires
        *v is Number,
    ensures
        final(out)@ == old(out)@ + value_debug(*v),
    decreases v, 0nat,
{
    match v {
        Value::Number { val } => {
            let mut t0 = field_start("val");
            crate::text::push_i32(&mut t0, *val);
            let parts = vec![t0];
            assert(string_views(parts@) =~= seq![named("val"@, int_text(*val as int))]);
            write_record(out, "Number", &parts);
        },
        _ => {},
    }
}

/// Appends the `Debug` form of a `Bool` value.
fn write_value_bool(out: &mut String, v: &Value)
    requires
        *v is Bool,
    ensures
        final(out)@ == old(out)@ + value_debug(*v),
    decreases v, 0nat,
{
    match v {
        Value::Bool { val } => {
            let mut t0 = field_start("val");
            crate::text::push_bool(&mut t0, *val);
            let parts = vec![t0];
            assert(string_views(parts@) =~= seq![named("val"@, bool_text(*val))]);
            write_record(out, "Bool", &parts);
        },
        _ => {},
    }
}

/// Appends the `Debug` form of a `String` value.
fn write_value_string(out: &mut String, v: &Value)
    requires
        *v is String,
    ensures
        final(out)@ == old(out)@ + value_debug(*v),
    decreases v, 0nat,
{
    match v {
        Value::String { val } => {
            let mut t0 = field_start("val");
            crate::text::push_str_debug(&mut t0, val.as_str());
            let parts = vec![t0];
            assert(string_views(parts@) =~= seq![named("val"@, str_debug(val@))]);
            write_record(out, "String", &parts);
        },
        _ => {},
    }
}

/// Appends the `Debug` form of a `Closure` value.
fn write_value_closure(out: &mut String, v: &Value)
    requires
        *v is Closure,
    ensures
        final(out)@ == old(out)@ + value_debug(*v),
    decreases v, 0nat,
{
    match v {
        Value::Closure {
            params,
            param_ids,
            body,
            env,
            service_name,
            service_name_id,
            service_name_binding_id,
        } => {
            let mut t0 = field_start("params");
            write_strings_debug(&mut t0, params);
            let mut t1 = field_start("param_ids");
            write_id_pairs_debug(&mut t1, param_ids);
            let mut t2 = field_start("body");
            write_expr_debug(&mut t2, &**body);
            let mut t3 = field_start("env");
            write_env_list(&mut t3, env);
            let mut t4 = field_start("service_name");
            crate::text::push_str_debug(&mut t4, service_name.as_str());
            let mut t5 = field_start("service_name_id");
            write_symbol(&mut t5, *service_name_id);
            let mut t6 = field_start("service_name_binding_id");
            write_binding(&mut t6, *service_name_binding_id);
            let parts = vec![t0, t1, t2, t3, t4, t5, t6];
            assert(string_views(parts@) =~=
                seq![
                    named("params"@, strings_debug(params@)),
                    named("param_ids"@, id_pairs_debug(param_ids@)),
                    named("body"@, expr_debug(**body)),
                    named("env"@, bracketed(env_items(env@))),
                    named("service_name"@, str_debug(service_name@)),
                    named("service_name_id"@, symbol_debug(*service_name_id)),
                    named("service_name_binding_id"@, binding_debug(*service_name_binding_id)),
                ]
            );
            write_record(out, "Closure", &parts);
        },
        _ => {},
    }
}

/// Appends the `Debug` form of an `ActionClosure` value.
fn write_value_action_closure(out: &mut String, v: &Value)
    requires
        *v is ActionClosure,
    ensures
        final(out)@ == old(out)@ + value_debug(*v),
    decreases v, 0nat,
{
    match v {
        Value::ActionClosure {
            stmts,
            env,
            service_name,
            service_name_id,
            service_name_binding_id,
        } => {
            let mut t0 = field_start("stmts");
            write_action_list(&mut t0, stmts);
            let mut t1 = field_start("env");
            write_env_list(&mut t1, env);
            let mut t2 = field_start("service_name");
            crate::text::push_str_debug(&mut t2, service_name.as_str());
            let mut t3 = field_start("service_name_id");
            write_symbol(&mut t3, *service_name_id);
            let mut t4 = field_start("service_name_binding_id");
            write_binding(&mut t4, *service_name_binding_id);
            let parts = vec![t0, t1, t2, t3, t4];
            assert(string_views(parts@) =~=
                seq![
                    named("stmts"@, bracketed(action_items(stmts@))),
                    named("env"@, bracketed(env_items(env@))),
                    named("service_name"@, str_debug(service_name@)),
                    named("service_name_id"@, symbol_debug(*service_name_id)),
                    named("service_name_binding_id"@, binding_debug(*service_name_binding_id)),
                ]
            );
            write_record(out, "ActionClosure", &parts);
        },
        _ => {},
    }
}

/// Appends the `Debug` form of `v`.
pub fn write_value_debug(out: &mut String, v: &Value)
    ensures
        final(out)@ == old(out)@ + value_debug(*v),
    decreases v, 1nat,
{
    match v {
        Value::Number { .. } => write_value_number(out, v),
        Value::Bool { .. } => write_value_bool(out, v),
        Value::String { .. } => write_value_string(out, v),
        Value::Closure { .. } => write_value_closure(out, v),
        Value::ActionClosure { .. } => write_value_action_closure(out, v),
    }
}

/// Appends the `Debug` form of a `Let` action statement.
fn write_action_let(out: &mut String, a: &ActionStmt)
    requires
        *a is Let,
    ensures
        final(out)@ == old(out)@ + action_stmt_debug(*a),
    decreases a, 0nat,
{
    match a {
        ActionStmt::Let { name, expr, name_id, binding_id } => {
            let mut t0 = field_start("name");
            crate::text::push_str_debug(&mut t0, name.as_str());
            let mut t1 = field_start("expr");
            write_expr_debug(&mut t1, expr);
            let mut t2 = field_start("name_id");
            write_symbol(&mut t2, *name_id);
            let mut t3 = field_start("binding_id");
            write_binding(&mut t3, *binding_id);
            let parts = vec![t0, t1, t2, t3];
            assert(string_views(parts@) =~=
                seq![
                    named("name"@, str_debug(name@)),
                    named("expr"@, expr_debug(*expr)),
                    named("name_id"@, symbol_debug(*name_id)),
                    named("binding_id"@, binding_debug(*binding_id)),
                ]
            );
            write_record(out, "Let", &parts);
        },
        _ => {},
    }
}

/// Appends the `Debug` form of an `Expr` action statement.
fn write_action_expr(out: &mut String, a: &ActionStmt)
    requires
        *a is Expr,
    ensures
        final(out)@ == old(out)@ + action_stmt_debug(*a),
    decreases a, 0nat,
{
    let ghost start = out@;
    match a {
        ActionStmt::Expr(x) => {
            out.append("Expr");
            out.append("(");
            write_expr_debug(&mut *out, x);
            out.append(")");
            assert(out@ =~= start + wrapped("Expr"@, expr_debug(*x)));
        },
        _ => {},
    }
}

/// Appends the `Debug` form of a `Do` action statement.
fn write_action_do(out: &mut String, a: &ActionStmt)
    requires
        *a is Do,
    ensures
        final(out)@ == old(out)@ + action_stmt_debug(*a),
    decreases a, 0nat,
{
    let ghost start = out@;
    match a {
        ActionStmt::Do(x) => {
            out.append("Do");
            out.append("(");
            write_expr_debug(&mut *out, x);
            out.append(")");
            assert(out@ =~= start + wrapped("Do"@, expr_debug(*x)));
        },
        _ => {},
    }
}

/// Appends the `Debug` form of an `Assert` action statement.
fn write_action_assert(out: &mut String, a: &ActionStmt)
    requires
        *a is Assert,
    ensures
        final(out)@ == old(out)@ + action_stmt_debug(*a),
    decreases a, 0nat,
{
    let ghost start = out@;
    match a {
        ActionStmt::Assert(x) => {
            out.append("Assert");
            out.append("(");
            write_expr_debug(&mut *out, x);
            out.append(")");
            assert(out@ =~= start + wrapped("Assert"@, expr_debug(*x)));
        },
        _ => {},
    }
}

/// Appends the `Debug` form of an `Assign` action statement.
fn write_action_assign(out: &mut String, a: &ActionStmt)
    requires
        *a is Assign,
    ensures
        final(out)@ == old(out)@ + action_stmt_debug(*a),
    decreases a, 0nat,
{
    match a {
        ActionStmt::Assign { var, name_id, binding_id, expr } => {
            let mut t0 = field_start("var");
            crate::text::push_str_debug(&mut t0, var.as_str());
            let mut t1 = field_start("name_id");
            write_symbol(&mut t1, *name_id);
            let mut t2 = field_start("binding_id");
            write_binding(&mut t2, *binding_id);
            let mut t3 = field_start("expr");
            write_expr_debug(&mut t3, expr);
            let parts = vec![t0, t1, t2, t3];
            assert(string_views(parts@) =~=
                seq![
                    named("var"@, str_debug(var@)),
                    named("name_id"@, symbol_debug(*name_id)),
                    named("binding_id"@, binding_debug(*binding_id)),
                    named("expr"@, expr_debug(*expr)),
                ]
            );
            write_record(out, "Assign", &parts);
        },
        _ => {},
    }
}

/// Appends the `Debug` form of an `Insert` action statement.
fn write_action_insert(out: &mut String, a: &ActionStmt)
    requires
        *a is Insert,
    ensures
        final(out)@ == old(out)@ + action_stmt_debug(*a),
    decreases a, 0nat,
{
    match a {
        ActionStmt::Insert { row, table_name, table_name_id, table_binding_id } => {
            let mut t0 = field_start("row");
            write_expr_debug(&mut t0, row);
            let mut t1 = field_start("table_name");
            crate::text::push_str_debug(&mut t1, table_name.as_str());
            let mut t2 = field_start("table_name_id");
            write_symbol(&mut t2, *table_name_id);
            let mut t3 = field_start("table_binding_id");
            write_binding(&mut t3, *table_binding_id);
            let parts = vec![t0, t1, t2, t3];
            assert(string_views(parts@) =~=
                seq![
                    named("row"@, expr_debug(*row)),
                    named("table_name"@, str_debug(table_name@)),
                    named("table_name_id"@, symbol_debug(*table_name_id)),
                    named("table_binding_id"@, binding_debug(*table_binding_id)),
                ]
            );
            write_record(out, "Insert", &parts);
        },
        _ => {},
    }
}

/// Appends the `Debug` form of `a`.
pub fn write_action_stmt_debug(out: &mut String, a: &ActionStmt)
    ensures
        final(out)@ == old(out)@ + action_stmt_debug(*a),
    decreases a, 1nat,
{
    match a {
        ActionStmt::Let { .. } => write_action_let(out, a),
        ActionStmt::Expr(..) => write_action_expr(out, a),
        ActionStmt::Do(..) => write_action_do(out, a),
        ActionStmt::Assert(..) => write_action_assert(out, a),
        ActionStmt::Assign { .. } => write_action_assign(out, a),
        ActionStmt::Insert { .. } => write_action_insert(out, a),
    }
}

/// Appends the `Debug` form of a `Literal` expression.
fn write_expr_literal(out: &mut String, e: &Expr)
    requires
        *e is Literal,
    ensures
        final(out)@ == old(out)@ + expr_debug(*e),
    decreases e, 0nat,
{
    match e {
        Expr::Literal { val } => {
            let mut t0 = field_start("val");
            write_value_debug(&mut t0, val);
            let parts = vec![t0];
            assert(string_views(parts@) =~= seq![named("val"@, value_debug(*val))]);
            write_record(out, "Literal", &parts);
        },
        _ => {},
    }
}

/// Appends the `Debug` form of a `Variable` expression.
fn write_expr_variable(out: &mut String, e: &Expr)
    requires
        *e is Variable,
    ensures
        final(out)@ == old(out)@ + expr_debug(*e),
    decreases e, 0nat,
{
    match e {
        Expr::Variable { ident, name_id, binding_id } => {
            let mut t0 = field_start("ident");
            crate::text::push_str_debug(&mut t0, ident.as_str());
            let mut t1 = field_start("name_id");
            write_symbol(&mut t1, *name_id);
            let mut t2 = field_start("binding_id");
            write_binding(&mut t2, *binding_id);
            let parts = vec![t0, t1, t2];
            assert(string_views(parts@) =~=
                seq![
                    named("ident"@, str_debug(ident@)),
                    named("name_id"@, symbol_debug(*name_id)),
                    named("binding_id"@, binding_debug(*binding_id)),
                ]
            );
            write_record(out, "Variable", &parts);
        },
        _ => {},
    }
}

/// Appends the `Debug` form of a `Tuple` expression.
fn write_expr_tuple(out: &mut String, e: &Expr)
    requires
        *e is Tuple,
    ensures
        final(out)@ == old(out)@ + expr_debug(*e),
    decreases e, 0nat,
{
    match e {
        Expr::Tuple { val } => {
            let mut t0 = field_start("val");
            write_expr_list(&mut t0, val);
            let parts = vec![t0];
            assert(string_views(parts@) =~= seq![named("val"@, bracketed(expr_items(val@)))]);
            write_record(out, "Tuple", &parts);
        },
        _ => {},
    }
}

/// Appends the `Debug` form of a `KeyVal` expression.
fn write_expr_key_val(out: &mut String, e: &Expr)
    requires
        *e is KeyVal,
    ensures
        final(out)@ == old(out)@ + expr_debug(*e),
    decreases e, 0nat,
{
    match e {
        Expr::KeyVal { key, key_id, key_binding_id, value } => {
            let mut t0 = field_start("key");
            crate::text::push_str_debug(&mut t0, key.as_str());
            let mut t1 = field_start("key_id");
            write_symbol(&mut t1, *key_id);
            let mut t2 = field_start("key_binding_id");
            write_binding(&mut t2, *key_binding_id);
            let mut t3 = field_start("value");
            write_expr_debug(&mut t3, &**value);
            let parts = vec![t0, t1, t2, t3];
            assert(string_views(parts@) =~=
                seq![
                    named("key"@, str_debug(key@)),
                    named("key_id"@, symbol_debug(*key_id)),
                    named("key_binding_id"@, binding_debug(*key_binding_id)),
                    named("value"@, expr_debug(**value)),
                ]
            );
            write_record(out, "KeyVal", &parts);
        },
        _ => {},
    }
}

/// Appends the `Debug` form of an `Unop` expression.
fn write_expr_unop(out: &mut String, e: &Expr)
    requires
        *e is Unop,
    ensures
        final(out)@ == old(out)@ + expr_debug(*e),
    decreases e, 0nat,
{
    match e {
        Expr::Unop { op, expr } => {
            let mut t0 = field_start("op");
            write_unop_name(&mut t0, *op);
            let mut t1 = field_start("expr");
            write_expr_debug(&mut t1, &**expr);
            let parts = vec![t0, t1];
            assert(string_views(parts@) =~=
                seq![
                    named("op"@, unop_name(*op)),
                    named("expr"@, expr_debug(**expr)),
                ]
            );
            write_record(out, "Unop", &parts);
        },
        _ => {},
    }
}

/// Appends the `Debug` form of a `Binop` expression.
fn write_expr_binop(out: &mut String, e: &Expr)
    requires
        *e is Binop,
    ensures
        final(out)@ == old(out)@ + expr_debug(*e),
    decreases e, 0nat,
{
    match e {
        Expr::Binop { op, expr1, expr2 } => {
            let mut t0 = field_start("op");
            write_binop_name(&mut t0, *op);
            let mut t1 = field_start("expr1");
            write_expr_debug(&mut t1, &**expr1);
            let mut t2 = field_start("expr2");
            write_expr_debug(&mut t2, &**expr2);
            let parts = vec![t0, t1, t2];
            assert(string_views(parts@) =~=
                seq![
                    named("op"@, binop_name(*op)),
                    named("expr1"@, expr_debug(**expr1)),
                    named("expr2"@, expr_debug(**expr2)),
                ]
            );
            write_record(out, "Binop", &parts);
        },
        _ => {},
    }
}

/// Appends the `Debug` form of an `If` expression.
fn write_expr_if(out: &mut String, e: &Expr)
    requires
        *e is If,
    ensures
        final(out)@ == old(out)@ + expr_debug(*e),
    decreases e, 0nat,
{
    match e {
        Expr::If { cond, expr1, expr2 } => {
            let mut t0 = field_start("cond");
            write_expr_debug(&mut t0, &**cond);
            let mut t1 = field_start("expr1");
            write_expr_debug(&mut t1, &**expr1);
            let mut t2 = field_start("expr2");
            write_expr_debug(&mut t2, &**expr2);
            let parts = vec![t0, t1, t2];
            assert(string_views(parts@) =~=
                seq![
                    named("cond"@, expr_debug(**cond)),
                    named("expr1"@, expr_debug(**expr1)),
                    named("expr2"@, expr_debug(**expr2)),
                ]
            );
            write_record(out, "If", &parts);
        },
        _ => {},
    }
}

/// Appends the `Debug` form of a `Func` expression.
fn write_expr_func(out: &mut String, e: &Expr)
    requires
        *e is Func,
    ensures
        final(out)@ == old(out)@ + expr_debug(*e),
    decreases e, 0nat,
{
    match e {
        Expr::Func { params, param_ids, body } => {
            let mut t0 = field_start("params");
            write_strings_debug(&mut t0, params);
            let mut t1 = field_start("param_ids");
            write_id_pairs_debug(&mut t1, param_ids);
            let mut t2 = field_start("body");
            write_expr_debug(&mut t2, &**body);
            let parts = vec![t0, t1, t2];
            assert(string_views(parts@) =~=
                seq![
                    named("params"@, strings_debug(params@)),
                    named("param_ids"@, id_pairs_debug(param_ids@)),
                    named("body"@, expr_debug(**body)),
                ]
            );
            write_record(out, "Func", &parts);
        },
        _ => {},
    }
}

/// Appends the `Debug` form of a `Call` expression.
fn write_expr_call(out: &mut String, e: &Expr)
    requires
        *e is Call,
    ensures
        final(out)@ == old(out)@ + expr_debug(*e),
    decreases e, 0nat,
{
    match e {
        Expr::Call { func, args } => {
            let mut t0 = field_start("func");
            write_expr_debug(&mut t0, &**func);
            let mut t1 = field_start("args");
            write_expr_list(&mut t1, args);
            let parts = vec![t0, t1];
            assert(string_views(parts@) =~=
                seq![
                    named("func"@, expr_debug(**func)),
                    named("args"@, bracketed(expr_items(args@))),
                ]
            );
            write_record(out, "Call", &parts);
        },
        _ => {},
    }
}

/// Appends the `Debug` form of an `Action` expression.
fn write_expr_action(out: &mut String, e: &Expr)
    requires
        *e is Action,
    ensures
        final(out)@ == old(out)@ + expr_debug(*e),
    decreases e, 0nat,
{
    let ghost start = out@;
    match e {
        Expr::Action(x) => {
            out.append("Action");
            out.append("(");
            write_action_list(&mut *out, x);
            out.append(")");
            assert(out@ =~= start + wrapped("Action"@, bracketed(action_items(x@))));
        },
        _ => {},
    }
}

/// Appends the `Debug` form of a `MemberAccess` expression.
fn write_expr_member_access(out: &mut String, e: &Expr)
    requires
        *e is MemberAccess,
    ensures
        final(out)@ == old(out)@ + expr_debug(*e),
    decreases e, 0nat,
{
    match e {
        Expr::MemberAccess {
            service,
            service_id,
            service_binding_id,
            member,
            member_id,
            member_binding_id,
        } => {
            let mut t0 = field_start("service");
            crate::text::push_str_debug(&mut t0, service.as_str());
            let mut t1 = field_start("service_id");
            write_symbol(&mut t1, *service_id);
            let mut t2 = field_start("service_binding_id");
            write_binding(&mut t2, *service_binding_id);
            let mut t3 = field_start("member");
            crate::text::push_str_debug(&mut t3, member.as_str());
            let mut t4 = field_start("member_id");
            write_symbol(&mut t4, *member_id);
            let mut t5 = field_start("member_binding_id");
            write_binding(&mut t5, *member_binding_id);
            let parts = vec![t0, t1, t2, t3, t4, t5];
            assert(string_views(parts@) =~=
                seq![
                    named("service"@, str_debug(service@)),
                    named("service_id"@, symbol_debug(*service_id)),
                    named("service_binding_id"@, binding_debug(*service_binding_id)),
                    named("member"@, str_debug(member@)),
                    named("member_id"@, symbol_debug(*member_id)),
                    named("member_binding_id"@, binding_debug(*member_binding_id)),
                ]
            );
            write_record(out, "MemberAccess", &parts);
        },
        _ => {},
    }
}

/// Appends the `Debug` form of a `Select` expression.
fn write_expr_select(out: &mut String, e: &Expr)
    requires
        *e is Select,
    ensures
        final(out)@ == old(out)@ + expr_debug(*e),
    decreases e, 0nat,
{
    match e {
        Expr::Select {
            table_name,
            table_name_id,
            table_binding_id,
            column_names,
            column_ids,
            where_clause,
        } => {
            let mut t0 = field_start("table_name");
            crate::text::push_str_debug(&mut t0, table_name.as_str());
            let mut t1 = field_start("table_name_id");
            write_symbol(&mut t1, *table_name_id);
            let mut t2 = field_start("table_binding_id");
            write_binding(&mut t2, *table_binding_id);
            let mut t3 = field_start("column_names");
            write_strings_debug(&mut t3, column_names);
            let mut t4 = field_start("column_ids");
            write_id_pairs_debug(&mut t4, column_ids);
            let mut t5 = field_start("where_clause");
            write_expr_debug(&mut t5, &**where_clause);
            let parts = vec![t0, t1, t2, t3, t4, t5];
            assert(string_views(parts@) =~=
                seq![
                    named("table_name"@, str_debug(table_name@)),
                    named("table_name_id"@, symbol_debug(*table_name_id)),
                    named("table_binding_id"@, binding_debug(*table_binding_id)),
                    named("column_names"@, strings_debug(column_names@)),
                    named("column_ids"@, id_pairs_debug(column_ids@)),
                    named("where_clause"@, expr_debug(**where_clause)),
                ]
            );
            write_record(out, "Select", &parts);
        },
        _ => {},
    }
}

/// Appends the `Debug` form of a `Table` expression.
fn write_expr_table(out: &mut String, e: &Expr)
    requires
        *e is Table,
    ensures
        final(out)@ == old(out)@ + expr_debug(*e),
    decreases e, 0nat,
{
    match e {
        Expr::Table { schema, records } => {
            let mut t0 = field_start("schema");
            write_fields_debug(&mut t0, schema);
            let mut t1 = field_start("records");
            write_expr_list(&mut t1, records);
            let parts = vec![t0, t1];
            assert(string_views(parts@) =~=
                seq![
                    named("schema"@, fields_debug(schema@)),
                    named("records"@, bracketed(expr_items(records@))),
                ]
            );
            write_record(out, "Table", &parts);
        },
        _ => {},
    }
}

/// Appends the `Debug` form of a `Fold` expression.
fn write_expr_fold(out: &mut String, e: &Expr)
    requires
        *e is Fold,
    ensures
        final(out)@ == old(out)@ + expr_debug(*e),
    decreases e, 0nat,
{
    match e {
        Expr::Fold {
            table_name,
            table_name_id,
            table_binding_id,
            column_name,
            column_name_id,
            column_binding_id,
            operation,
            identity,
        } => {
            let mut t0 = field_start("table_name");
            crate::text::push_str_debug(&mut t0, table_name.as_str());
            let mut t1 = field_start("table_name_id");
            write_symbol(&mut t1, *table_name_id);
            let mut t2 = field_start("table_binding_id");
            write_binding(&mut t2, *table_binding_id);
            let mut t3 = field_start("column_name");
            crate::text::push_str_debug(&mut t3, column_name.as_str());
            let mut t4 = field_start("column_name_id");
            write_symbol(&mut t4, *column_name_id);
            let mut t5 = field_start("column_binding_id");
            write_binding(&mut t5, *column_binding_id);
            let mut t6 = field_start("operation");
            write_expr_debug(&mut t6, &**operation);
            let mut t7 = field_start("identity");
            write_expr_debug(&mut t7, &**identity);
            let parts = vec![t0, t1, t2, t3, t4, t5, t6, t7];
            assert(string_views(parts@) =~=
                seq![
                    named("table_name"@, str_debug(table_name@)),
                    named("table_name_id"@, symbol_debug(*table_name_id)),
                    named("table_binding_id"@, binding_debug(*table_binding_id)),
                    named("column_name"@, str_debug(column_name@)),
                    named("column_name_id"@, symbol_debug(*column_name_id)),
                    named("column_binding_id"@, binding_debug(*column_binding_id)),
                    named("operation"@, expr_debug(**operation)),
                    named("identity"@, expr_debug(**identity)),
                ]
            );
            write_record(out, "Fold", &parts);
        },
        _ => {},
    }
}

/// Appends the `Debug` form of `e`.
pub fn write_expr_debug(out: &mut String, e: &Expr)
    ensures
        final(out)@ == old(out)@ + expr_debug(*e),
    decreases e, 1nat,
{
    match e {
        Expr::Literal { .. } => write_expr_literal(out, e),
        Expr::Variable { .. } => write_expr_variable(out, e),
        Expr::Tuple { .. } => write_expr_tuple(out, e),
        Expr::KeyVal { .. } => write_expr_key_val(out, e),
        Expr::Unop { .. } => write_expr_unop(out, e),
        Expr::Binop { .. } => write_expr_binop(out, e),
        Expr::If { .. } => write_expr_if(out, e),
        Expr::Func { .. } => write_expr_func(out, e),
        Expr::Call { .. } => write_expr_call(out, e),
        Expr::Action(..) => write_expr_action(out, e),
        Expr::MemberAccess { .. } => write_expr_member_access(out, e),
        Expr::Select { .. } => write_expr_select(out, e),
        Expr::Table { .. } => write_expr_table(out, e),
        Expr::Fold { .. } => write_expr_fold(out, e),
    }
}

/// Each binary operator's `Debug` name is its variant's name, letter for
/// letter, and no two operators share a name.
pub proof fn lemma_binop_names()
    ensures
        binop_name(BinOp::Add) == seq!['A', 'd', 'd'],
        binop_name(BinOp::Sub) == seq!['S', 'u', 'b'],
        binop_name(BinOp::Mul) == seq!['M', 'u', 'l'],
        binop_name(BinOp::Div) == seq!['D', 'i', 'v'],
        binop_name(BinOp::Eq) == seq!['E', 'q'],
        binop_name(BinOp::Lt) == seq!['L', 't'],
        binop_name(BinOp::Gt) == seq!['G', 't'],
        binop_name(BinOp::And) == seq!['A', 'n', 'd'],
        binop_name(BinOp::Or) == seq!['O', 'r'],
        forall|a: BinOp, b: BinOp| #[trigger] binop_name(a) == #[trigger] binop_name(b) ==> a == b,
{
    reveal_strlit("Add");
    reveal_strlit("Sub");
    reveal_strlit("Mul");
    reveal_strlit("Div");
    reveal_strlit("Eq");
    reveal_strlit("Lt");
    reveal_strlit("Gt");
    reveal_strlit("And");
    reveal_strlit("Or");
    assert(binop_name(BinOp::Add) =~= seq!['A', 'd', 'd']);
    assert(binop_name(BinOp::Sub) =~= seq!['S', 'u', 'b']);
    assert(binop_name(BinOp::Mul) =~= seq!['M', 'u', 'l']);
    assert(binop_name(BinOp::Div) =~= seq!['D', 'i', 'v']);
    assert(binop_name(BinOp::Eq) =~= seq!['E', 'q']);
    assert(binop_name(BinOp::Lt) =~= seq!['L', 't']);
    assert(binop_name(BinOp::Gt) =~= seq!['G', 't']);
    assert(binop_name(BinOp::And) =~= seq!['A', 'n', 'd']);
    assert(binop_name(BinOp::Or) =~= seq!['O', 'r']);
    assert forall|a: BinOp, b: BinOp| #[trigger] binop_name(a) == #[trigger] binop_name(b) implies a == b by {
        if a != b {
            assert(binop_name(a)[0] != binop_name(b)[0] || binop_name(a)[1] != binop_name(b)[1]
                || binop_name(a).len() != binop_name(b).len());
        }
    }
}

/// Each unary operator's `Debug` name is its variant's name, and the two
/// differ.
pub proof fn lemma_unop_names()
    ensures
        unop_name(UnOp::Neg) == seq!['N', 'e', 'g'],
        unop_name(UnOp::Not) == seq!['N', 'o', 't'],
        forall|a: UnOp, b: UnOp| #[trigger] unop_name(a) == #[trigger] unop_name(b) ==> a == b,
{
    reveal_strlit("Neg");
    reveal_strlit("Not");
    assert(unop_name(UnOp::Neg) =~= seq!['N', 'e', 'g']);
    assert(unop_name(UnOp::Not) =~= seq!['N', 'o', 't']);
    assert(unop_name(UnOp::Neg)[1] != unop_name(UnOp::Not)[1]);
}

/// Each column type's `Debug` name is its variant's name, and no two
/// share one.
pub proof fn lemma_datatype_names()
    ensures
        datatype_name(DataType::String) == seq!['S', 't', 'r', 'i', 'n', 'g'],
        datatype_name(DataType::Number) == seq!['N', 'u', 'm', 'b', 'e', 'r'],
        datatype_name(DataType::Bool) == seq!['B', 'o', 'o', 'l'],
        forall|a: DataType, b: DataType| #[trigger] datatype_name(a) == #[trigger] datatype_name(b) ==> a == b,
{
    reveal_strlit("String");
    reveal_strlit("Number");
    reveal_strlit("Bool");
    assert(datatype_name(DataType::String) =~= seq!['S', 't', 'r', 'i', 'n', 'g']);
    assert(datatype_name(DataType::Number) =~= seq!['N', 'u', 'm', 'b', 'e', 'r']);
    assert(datatype_name(DataType::Bool) =~= seq!['B', 'o', 'o', 'l']);
    assert(datatype_name(DataType::String)[0] != datatype_name(DataType::Number)[0]);
}

/// The `Debug` form of a boolean or a number value shows the value:
/// `Bool { val: true }`, `Number { val: -3 }`. Different booleans, or
/// different numbers, have different forms.
pub proof fn lemma_plain_value_debug(b: bool, c: bool, n: i32, m: i32)
    ensures
        value_debug(Value::Bool { val: b }) == "Bool { val: "@ + (if b {
            seq!['t', 'r', 'u', 'e']
        } else {
            seq!['f', 'a', 'l', 's', 'e']
        }) + " }"@,
        value_debug(Value::Bool { val: b }) == value_debug(Value::Bool { val: c }) ==> b == c,
        value_debug(Value::Number { val: n }) == "Number { val: "@ + int_text(n as int) + " }"@,
        value_debug(Value::Number { val: n }) == value_debug(Value::Number { val: m }) ==> n == m,
{
    crate::text::lemma_bool_text();
    crate::text::lemma_int_text(n as int, m as int);
    reveal_strlit("Bool { val: ");
    reveal_strlit("Number { val: ");
    reveal_strlit("Bool");
    reveal_strlit("Number");
    reveal_strlit(" { ");
    reveal_strlit("val");
    reveal_strlit(": ");
    reveal_strlit(" }");
    let bp = "Bool { val: "@;
    let np = "Number { val: "@;
    let post = " }"@;
    assert(join(seq![named("val"@, bool_text(b))], ", "@) == named("val"@, bool_text(b)));
    assert(join(seq![named("val"@, bool_text(c))], ", "@) == named("val"@, bool_text(c)));
    assert(join(seq![named("val"@, int_text(n as int))], ", "@) == named("val"@, int_text(n as int)));
    assert(join(seq![named("val"@, int_text(m as int))], ", "@) == named("val"@, int_text(m as int)));
    assert(value_debug(Value::Bool { val: b }) =~= bp + bool_text(b) + post);
    assert(value_debug(Value::Bool { val: c }) =~= bp + bool_text(c) + post);
    assert(value_debug(Value::Number { val: n }) =~= np + int_text(n as int) + post);
    assert(value_debug(Value::Number { val: m }) =~= np + int_text(m as int) + post);
    crate::text::lemma_frame_injective(bp, bool_text(b), bool_text(c), post);
    crate::text::lemma_frame_injective(np, int_text(n as int), int_text(m as int), post);
}

} // verus!
