//! The human-readable text of syntax trees (what the `to_string` methods
//! return).
use vstd::prelude::*;
use crate::ast::{ActionStmt, BinOp, Decl, Expr, UnOp, Value};
use crate::repr::{action_items, bracketed, env_items, expr_debug, write_action_list, write_env_list};
use crate::binding_id::BindingId;
use crate::symbol::Symbol;
use crate::text::{bool_text, int_text, join, str_debug, string_views};

verus! {

/// The symbol of a unary operator.
pub open spec fn unop_text(op: UnOp) -> Seq<char> {
    match op {
        UnOp::Neg => "-"@,
        UnOp::Not => "!"@,
    }
}

/// The symbol of a binary operator.
pub open spec fn binop_text(op: BinOp) -> Seq<char> {
    match op {
        BinOp::Add => "+"@,
        BinOp::Sub => "-"@,
        BinOp::Mul => "*"@,
        BinOp::Div => "/"@,
        BinOp::Eq => "=="@,
        BinOp::Lt => "<"@,
        BinOp::Gt => ">"@,
        BinOp::And => "&&"@,
        BinOp::Or => "||"@,
    }
}

/// The text of a value: numbers and booleans as written, strings between
/// double quotes (unescaped), closures with their parameters, environment
/// and body.
pub open spec fn value_text(v: Value) -> Seq<char>
    decreases v,
{
    match v {
        Value::Number { val } => int_text(val as int),
        Value::Bool { val } => bool_text(val),
        Value::String { val } => "\""@ + val@ + "\""@,
        Value::Closure { params, body, env, .. } => "fn("@ + join(string_views(params@), ","@) + ")["@
            + bracketed(env_items(env@)) + "]{"@ + expr_text(*body) + "}"@,
        Value::ActionClosure { stmts, env, service_name, .. } => "action["@ + bracketed(
            env_items(env@),
        ) + "]["@ + service_name@ + "]{"@ + bracketed(action_items(stmts@)) + "}"@,
    }
}

/// The texts of the expressions, separated by `, `.
pub open spec fn expr_texts(s: Seq<Expr>) -> Seq<char>
    decreases s,
{
    if s.len() == 0 {
        Seq::empty()
    } else if s.len() == 1 {
        expr_text(s.last())
    } else {
        expr_texts(s.drop_last()) + ", "@ + expr_text(s.last())
    }
}

/// The texts of the statements, separated by `, `.
pub open spec fn action_texts(s: Seq<ActionStmt>) -> Seq<char>
    decreases s,
{
    if s.len() == 0 {
        Seq::empty()
    } else if s.len() == 1 {
        action_stmt_text(s.last())
    } else {
        action_texts(s.drop_last()) + ", "@ + action_stmt_text(s.last())
    }
}

/// The records of a table, each between braces, separated by `, `.
pub open spec fn record_texts(s: Seq<Expr>) -> Seq<char>
    decreases s,
{
    if s.len() == 0 {
        Seq::empty()
    } else {
        // One record between braces: the entries of a tuple separated by
        // `, `, any other expression as its text.
        let last = match s.last() {
            Expr::Tuple { val } => "{"@ + expr_texts(val@) + "}"@,
            other => "{"@ + expr_text(other) + "}"@,
        };
        if s.len() == 1 {
            last
        } else {
            record_texts(s.drop_last()) + ", "@ + last
        }
    }
}

/// The text of an expression.
pub open spec fn expr_text(e: Expr) -> Seq<char>
    decreases e,
{
    match e {
        Expr::Literal { val } => value_text(val),
        Expr::Tuple { .. } => "vector"@,
        Expr::KeyVal { key, value, .. } => "keyval: "@ + key@ + ", "@ + expr_text(*value),
        Expr::Variable { ident, .. } => ident@,
        Expr::Unop { op, expr } => unop_text(op) + expr_text(*expr),
        Expr::Binop { op, expr1, expr2 } => expr_text(*expr1) + " "@ + binop_text(op) + " "@
            + expr_text(*expr2),
        Expr::If { cond, expr1, expr2 } => "if "@ + expr_text(*cond) + " then "@ + expr_text(*expr1)
            + " else "@ + expr_text(*expr2),
        Expr::Func { params, body, .. } => "fn("@ + join(string_views(params@), ","@) + ")["@
            + expr_text(*body) + "]"@,
        Expr::Call { func, args } => expr_text(*func) + "("@ + expr_texts(args@) + ")"@,
        Expr::Action(stmts) => "Action("@ + str_debug(action_texts(stmts@)) + ")"@,
        Expr::MemberAccess { service, member, .. } => service@ + "."@ + member@,
        Expr::Select { where_clause, .. } => expr_text(*where_clause),
        Expr::Table { records, .. } => "["@ + record_texts(records@) + "]"@,
        Expr::Fold { .. } => "fold"@,
    }
}

/// The text of an action statement.
pub open spec fn action_stmt_text(a: ActionStmt) -> Seq<char>
    decreases a,
{
    match a {
        ActionStmt::Let { name, expr, .. } => "let "@ + name@ + " = "@ + expr_text(expr),
        ActionStmt::Expr(e) => expr_text(e),
        ActionStmt::Do(e) => "do "@ + expr_text(e),
        ActionStmt::Assert(e) => "assert "@ + expr_text(e),
        ActionStmt::Assign { var, expr, .. } => var@ + " = "@ + expr_text(expr),
        ActionStmt::Insert { row, table_name, .. } => "insert into "@ + table_name@ + " "@ + expr_text(
            row,
        ),
    }
}

/// The text of a declaration.
pub open spec fn decl_text(d: Decl) -> Seq<char> {
    match d {
        Decl::VarDecl { name, val, .. } => "var "@ + name@ + " = "@ + expr_text(val),
        Decl::DefDecl { name, val, is_pub, .. } => if is_pub {
            "pub def "@ + name@ + " = "@ + expr_text(val)
        } else {
            "def "@ + name@ + " = "@ + expr_text(val)
        },
        Decl::TableDecl { name, .. } => "table "@ + name@ + " created"@,
    }
}


fn write_unop_text(out: &mut String, op: UnOp)
    ensures
        final(out)@ == old(out)@ + unop_text(op),
{
    match op {
        UnOp::Neg => out.append("-"),
        UnOp::Not => out.append("!"),
    }
}

fn write_binop_text(out: &mut String, op: BinOp)
    ensures
        final(out)@ == old(out)@ + binop_text(op),
{
    match op {
        BinOp::Add => out.append("+"),
        BinOp::Sub => out.append("-"),
        BinOp::Mul => out.append("*"),
        BinOp::Div => out.append("/"),
        BinOp::Eq => out.append("=="),
        BinOp::Lt => out.append("<"),
        BinOp::Gt => out.append(">"),
        BinOp::And => out.append("&&"),
        BinOp::Or => out.append("||"),
    }
}

/// Appends the text of a value.
pub fn write_value_text(out: &mut String, v: &Value)
    ensures
        final(out)@ == old(out)@ + value_text(*v),
    decreases v, 1nat,
{
    let ghost start = out@;
    match v {
        Value::Number { val } => crate::text::push_i32(out, *val),
        Value::Bool { val } => crate::text::push_bool(out, *val),
        Value::String { val } => {
            out.append("\"");
            out.append(val.as_str());
            out.append("\"");
        },
        Value::Closure { params, body, env, .. } => {
            out.append("fn(");
            crate::text::push_joined(out, params, ",");
            out.append(")[");
            write_env_list(out, env);
            out.append("]{");
            write_expr_text(out, &**body);
            out.append("}");
        },
        Value::ActionClosure { stmts, env, service_name, .. } => {
            out.append("action[");
            write_env_list(out, env);
            out.append("][");
            out.append(service_name.as_str());
            out.append("]{");
            write_action_list(out, stmts);
            out.append("}");
        },
    }
    assert(out@ =~= start + value_text(*v));
}

/// Appends the texts of the expressions, separated by `, `.
pub fn write_expr_texts(out: &mut String, v: &Vec<Expr>)
    ensures
        final(out)@ == old(out)@ + expr_texts(v@),
    decreases v, 0nat,
{
    let ghost start = out@;
    let mut i: usize = 0;
    while i < v.len()
        invariant
            i <= v.len(),
            out@ == start + expr_texts(v@.take(i as int)),
        decreases v.len() - i,
    {
        if i > 0 {
            out.append(", ");
        }
        write_expr_text(out, &v[i]);
        proof {
            let s = v@.take(i + 1);
            assert(s.drop_last() =~= v@.take(i as int));
            assert(out@ =~= start + expr_texts(s));
        }
        i = i + 1;
    }
    assert(v@.take(v.len() as int) =~= v@);
}

/// Appends the texts of the statements, separated by `, `.
pub fn write_action_texts(out: &mut String, v: &Vec<ActionStmt>)
    ensures
        final(out)@ == old(out)@ + action_texts(v@),
    decreases v, 0nat,
{
    let ghost start = out@;
    let mut i: usize = 0;
    while i < v.len()
        invariant
            i <= v.len(),
            out@ == start + action_texts(v@.take(i as int)),
        decreases v.len() - i,
    {
        if i > 0 {
            out.append(", ");
        }
        write_action_stmt_text(out, &v[i]);
        proof {
            let s = v@.take(i + 1);
            assert(s.drop_last() =~= v@.take(i as int));
            assert(out@ =~= start + action_texts(s));
        }
        i = i + 1;
    }
    assert(v@.take(v.len() as int) =~= v@);
}

/// Appends the records of a table, each between braces, separated by `, `.
pub fn write_record_texts(out: &mut String, v: &Vec<Expr>)
    ensures
        final(out)@ == old(out)@ + record_texts(v@),
    decreases v, 0nat,
{
    let ghost start = out@;
    let mut i: usize = 0;
    while i < v.len()
        invariant
            i <= v.len(),
            out@ == start + record_texts(v@.take(i as int)),
        decreases v.len() - i,
    {
        if i > 0 {
            out.append(", ");
        }
        let ghost mid = out@;
        out.append("{");
        match &v[i] {
            Expr::Tuple { val } => write_expr_texts(out, val),
            other => write_expr_text(out, other),
        }
        out.append("}");
        proof {
            let s = v@.take(i + 1);
            assert(s.drop_last() =~= v@.take(i as int));
            assert(s.last() == v@[i as int]);
            assert(out@ =~= start + record_texts(s));
        }
        i = i + 1;
    }
    assert(v@.take(v.len() as int) =~= v@);
}

/// Appends the text of an expression.
pub fn write_expr_text(out: &mut String, e: &Expr)
    ensures
        final(out)@ == old(out)@ + expr_text(*e),
    decreases e, 1nat,
{
    let ghost start = out@;
    match e {
        Expr::Literal { val } => write_value_text(out, val),
        Expr::Tuple { .. } => out.append("vector"),
        Expr::KeyVal { key, value, .. } => {
            out.append("keyval: ");
            out.append(key.as_str());
            out.append(", ");
            write_expr_text(out, &**value);
        },
        Expr::Variable { ident, .. } => out.append(ident.as_str()),
        Expr::Unop { op, expr } => {
            write_unop_text(out, *op);
            write_expr_text(out, &**expr);
        },
        Expr::Binop { op, expr1, expr2 } => {
            write_expr_text(out, &**expr1);
            out.append(" ");
            write_binop_text(out, *op);
            out.append(" ");
            write_expr_text(out, &**expr2);
        },
        Expr::If { cond, expr1, expr2 } => {
            out.append("if ");
            write_expr_text(out, &**cond);
            out.append(" then ");
            write_expr_text(out, &**expr1);
            out.append(" else ");
            write_expr_text(out, &**expr2);
        },
        Expr::Func { params, body, .. } => {
            out.append("fn(");
            crate::text::push_joined(out, params, ",");
            out.append(")[");
            write_expr_text(out, &**body);
            out.append("]");
        },
        Expr::Call { func, args } => {
            write_expr_text(out, &**func);
            out.append("(");
            write_expr_texts(out, args);
            out.append(")");
        },
        Expr::Action(stmts) => {
            let mut t = String::new();
            write_action_texts(&mut t, stmts);
            assert(t@ =~= action_texts(stmts@));
            out.append("Action(");
            crate::text::push_str_debug(out, t.as_str());
            out.append(")");
        },
        Expr::MemberAccess { service, member, .. } => {
            out.append(service.as_str());
            out.append(".");
            out.append(member.as_str());
        },
        Expr::Select { where_clause, .. } => write_expr_text(out, &**where_clause),
        Expr::Table { records, .. } => {
            out.append("[");
            write_record_texts(out, records);
            out.append("]");
        },
        Expr::Fold { .. } => out.append("fold"),
    }
    assert(out@ =~= start + expr_text(*e));
}

/// Appends the text of an action statement.
pub fn write_action_stmt_text(out: &mut String, a: &ActionStmt)
    ensures
        final(out)@ == old(out)@ + action_stmt_text(*a),
    decreases a, 1nat,
{
    let ghost start = out@;
    match a {
        ActionStmt::Let { name, expr, .. } => {
            out.append("let ");
            out.append(name.as_str());
            out.append(" = ");
            write_expr_text(out, expr);
        },
        ActionStmt::Expr(e) => write_expr_text(out, e),
        ActionStmt::Do(e) => {
            out.append("do ");
            write_expr_text(out, e);
        },
        ActionStmt::Assert(e) => {
            out.append("assert ");
            write_expr_text(out, e);
        },
        ActionStmt::Assign { var, expr, .. } => {
            out.append(var.as_str());
            out.append(" = ");
            write_expr_text(out, expr);
        },
        ActionStmt::Insert { row, table_name, .. } => {
            out.append("insert into ");
            out.append(table_name.as_str());
            out.append(" ");
            write_expr_text(out, row);
        },
    }
    assert(out@ =~= start + action_stmt_text(*a));
}

impl UnOp {
    /// The operator's symbol: `-` or `!`.
    pub fn to_string(&self) -> (res: String)
        ensures
            res@ == unop_text(*self),
    {
        let mut res = String::new();
        write_unop_text(&mut res, *self);
        assert(res@ =~= unop_text(*self));
        res
    }
}

impl BinOp {
    /// The operator's symbol, such as `+`, `==` or `&&`.
    pub fn to_string(&self) -> (res: String)
        ensures
            res@ == binop_text(*self),
    {
        let mut res = String::new();
        write_binop_text(&mut res, *self);
        assert(res@ =~= binop_text(*self));
        res
    }
}

impl Value {
    /// The value's text (see `value_text`).
    pub fn to_string(&self) -> (res: String)
        ensures
            res@ == value_text(*self),
    {
        let mut res = String::new();
        write_value_text(&mut res, self);
        assert(res@ =~= value_text(*self));
        res
    }
}

impl Expr {
    /// The expression's text (see `expr_text`).
    pub fn to_string(&self) -> (res: String)
        ensures
            res@ == expr_text(*self),
    {
        let mut res = String::new();
        write_expr_text(&mut res, self);
        assert(res@ =~= expr_text(*self));
        res
    }

    /// The expression's `Debug` form, as `#[derive(Debug)]` writes it.
    pub fn to_debug_string(&self) -> (res: String)
        ensures
            res@ == expr_debug(*self),
    {
        let mut res = String::new();
        crate::repr::write_expr_debug(&mut res, self);
        assert(res@ =~= expr_debug(*self));
        res
    }
}

impl ActionStmt {
    /// The statement's text (see `action_stmt_text`).
    pub fn to_string(&self) -> (res: String)
        ensures
            res@ == action_stmt_text(*self),
    {
        let mut res = String::new();
        write_action_stmt_text(&mut res, self);
        assert(res@ =~= action_stmt_text(*self));
        res
    }
}

impl Decl {
    /// The declaration's text (see `decl_text`).
    pub fn to_string(&self) -> (res: String)
        ensures
            res@ == decl_text(*self),
    {
        let mut res = String::new();
        match self {
            Decl::VarDecl { name, val, .. } => {
                res.append("var ");
                res.append(name.as_str());
                res.append(" = ");
                write_expr_text(&mut res, val);
            },
            Decl::DefDecl { name, val, is_pub, .. } => {
                if *is_pub {
                    res.append("pub def ");
                } else {
                    res.append("def ");
                }
                res.append(name.as_str());
                res.append(" = ");
                write_expr_text(&mut res, val);
            },
            Decl::TableDecl { name, .. } => {
                res.append("table ");
                res.append(name.as_str());
                res.append(" created");
            },
        }
        assert(res@ =~= decl_text(*self));
        res
    }
}

/// The texts of expressions separated by `, ` are the general joining of
/// the texts, one per expression, in order.
pub proof fn lemma_expr_texts_join(s: Seq<Expr>)
    ensures
        expr_texts(s) == join(s.map_values(|e: Expr| expr_text(e)), ", "@),
    decreases s.len(),
{
    let m = s.map_values(|e: Expr| expr_text(e));
    if s.len() >= 2 {
        lemma_expr_texts_join(s.drop_last());
        assert(m.drop_last() =~= s.drop_last().map_values(|e: Expr| expr_text(e)));
    }
}

/// The text of a call is the callee's text followed by every argument's
/// text, in order, separated by `, ` and between parentheses; with one
/// argument, exactly that argument's text stands between the parentheses.
pub proof fn lemma_call_text(func: Box<Expr>, args: Vec<Expr>)
    ensures
        expr_text((Expr::Call { func, args })) == expr_text(*func) + "("@ + join(
            args@.map_values(|e: Expr| expr_text(e)),
            ", "@,
        ) + ")"@,
        args@.len() == 1 ==> expr_text((Expr::Call { func, args })) == expr_text(*func) + "("@ + expr_text(
            args@[0],
        ) + ")"@,
        args@.len() == 0 ==> expr_text((Expr::Call { func, args })) == expr_text(*func) + "()"@,
{
    lemma_expr_texts_join(args@);
    reveal_strlit("(");
    reveal_strlit(")");
    reveal_strlit("()");
    if args@.len() == 0 {
        assert(expr_text((Expr::Call { func, args })) =~= expr_text(*func) + "()"@);
    }
}

/// The symbol of each binary operator, as written in source text; no two
/// operators share a symbol.
pub proof fn lemma_binop_symbols()
    ensures
        binop_text(BinOp::Add) == seq!['+'],
        binop_text(BinOp::Sub) == seq!['-'],
        binop_text(BinOp::Mul) == seq!['*'],
        binop_text(BinOp::Div) == seq!['/'],
        binop_text(BinOp::Eq) == seq!['=', '='],
        binop_text(BinOp::Lt) == seq!['<'],
        binop_text(BinOp::Gt) == seq!['>'],
        binop_text(BinOp::And) == seq!['&', '&'],
        binop_text(BinOp::Or) == seq!['|', '|'],
        forall|a: BinOp, b: BinOp| #[trigger] binop_text(a) == #[trigger] binop_text(b) ==> a == b,
{
    reveal_strlit("+");
    reveal_strlit("-");
    reveal_strlit("*");
    reveal_strlit("/");
    reveal_strlit("==");
    reveal_strlit("<");
    reveal_strlit(">");
    reveal_strlit("&&");
    reveal_strlit("||");
    assert(binop_text(BinOp::Add) =~= seq!['+']);
    assert(binop_text(BinOp::Sub) =~= seq!['-']);
    assert(binop_text(BinOp::Mul) =~= seq!['*']);
    assert(binop_text(BinOp::Div) =~= seq!['/']);
    assert(binop_text(BinOp::Eq) =~= seq!['=', '=']);
    assert(binop_text(BinOp::Lt) =~= seq!['<']);
    assert(binop_text(BinOp::Gt) =~= seq!['>']);
    assert(binop_text(BinOp::And) =~= seq!['&', '&']);
    assert(binop_text(BinOp::Or) =~= seq!['|', '|']);
    assert forall|a: BinOp, b: BinOp| #[trigger] binop_text(a) == #[trigger] binop_text(b) implies a == b by {
        if a != b {
            assert(binop_text(a)[0] != binop_text(b)[0] || binop_text(a).len() != binop_text(b).len());
        }
    }
}

/// The symbol of each unary operator; the two differ.
pub proof fn lemma_unop_symbols()
    ensures
        unop_text(UnOp::Neg) == seq!['-'],
        unop_text(UnOp::Not) == seq!['!'],
        forall|a: UnOp, b: UnOp| #[trigger] unop_text(a) == #[trigger] unop_text(b) ==> a == b,
{
    reveal_strlit("-");
    reveal_strlit("!");
    assert(unop_text(UnOp::Neg) =~= seq!['-']);
    assert(unop_text(UnOp::Not) =~= seq!['!']);
    assert(unop_text(UnOp::Neg)[0] != unop_text(UnOp::Not)[0]);
}

/// Plain values are written as they are: a number in decimal, a boolean as
/// `true` or `false`, a string between double quotes; a literal is written
/// as its value. Different numbers, or different booleans, are written
/// differently.
pub proof fn lemma_plain_value_texts(n: i32, m: i32, b: bool, c: bool, s: String)
    ensures
        value_text(Value::Number { val: n }) == int_text(n as int),
        value_text(Value::Number { val: n }) == value_text(Value::Number { val: m }) ==> n == m,
        value_text(Value::Bool { val: b }) == (if b {
            seq!['t', 'r', 'u', 'e']
        } else {
            seq!['f', 'a', 'l', 's', 'e']
        }),
        value_text(Value::Bool { val: b }) == value_text(Value::Bool { val: c }) ==> b == c,
        value_text(Value::String { val: s }) == seq!['"'] + s@ + seq!['"'],
        expr_text(Expr::Literal { val: Value::Bool { val: b } }) == value_text(Value::Bool { val: b }),
        expr_text(Expr::Literal { val: Value::Number { val: n } }) == int_text(n as int),
{
    crate::text::lemma_int_text(n as int, m as int);
    crate::text::lemma_bool_text();
    reveal_strlit("\"");
    assert(value_text(Value::String { val: s }) =~= seq!['"'] + s@ + seq!['"']);
    assert(expr_text(Expr::Literal { val: Value::Number { val: n } }) == value_text(Value::Number { val: n }));
}

/// A public definition reads as the private one with `pub ` in front; a
/// definition shows its name and its value's text; a variable declaration
/// differs from a private definition only in its first word.
pub proof fn lemma_decl_texts(name: String, name_id: Symbol, binding_id: BindingId, val: Expr)
    ensures
        decl_text((Decl::DefDecl { name, name_id, binding_id, val, is_pub: true })) == seq!['p', 'u', 'b', ' ']
            + decl_text((Decl::DefDecl { name, name_id, binding_id, val, is_pub: false })),
        decl_text((Decl::DefDecl { name, name_id, binding_id, val, is_pub: false })) == seq!['d', 'e', 'f', ' ']
            + name@ + seq![' ', '=', ' '] + expr_text(val),
        decl_text((Decl::VarDecl { name, name_id, binding_id, val })) == seq!['v', 'a', 'r', ' '] + name@ + seq![
            ' ',
            '=',
            ' ',
        ] + expr_text(val),
{
    reveal_strlit("pub def ");
    reveal_strlit("def ");
    reveal_strlit("var ");
    reveal_strlit(" = ");
    assert(decl_text((Decl::DefDecl { name, name_id, binding_id, val, is_pub: true })) =~= seq!['p', 'u', 'b', ' ']
        + decl_text((Decl::DefDecl { name, name_id, binding_id, val, is_pub: false })));
    assert(decl_text((Decl::DefDecl { name, name_id, binding_id, val, is_pub: false })) =~= seq!['d', 'e', 'f', ' ']
        + name@ + seq![' ', '=', ' '] + expr_text(val));
    assert(decl_text((Decl::VarDecl { name, name_id, binding_id, val })) =~= seq!['v', 'a', 'r', ' '] + name@ + seq![
        ' ',
        '=',
        ' ',
    ] + expr_text(val));
}

/// An action statement reads as its expression's text after a keyword
/// that names its kind: nothing for a bare expression, `do `, `assert `,
/// or `let name = ` for a binding.
pub proof fn lemma_action_texts(e: Expr, name: String, name_id: Symbol, binding_id: BindingId)
    ensures
        action_stmt_text(ActionStmt::Expr(e)) == expr_text(e),
        action_stmt_text(ActionStmt::Do(e)) == seq!['d', 'o', ' '] + expr_text(e),
        action_stmt_text(ActionStmt::Assert(e)) == seq!['a', 's', 's', 'e', 'r', 't', ' '] + expr_text(e),
        action_stmt_text((ActionStmt::Let { name, expr: e, name_id, binding_id })) == seq!['l', 'e', 't', ' ']
            + name@ + seq![' ', '=', ' '] + expr_text(e),
{
    reveal_strlit("do ");
    reveal_strlit("assert ");
    reveal_strlit("let ");
    reveal_strlit(" = ");
    assert(action_stmt_text(ActionStmt::Do(e)) =~= seq!['d', 'o', ' '] + expr_text(e));
    assert(action_stmt_text(ActionStmt::Assert(e)) =~= seq!['a', 's', 's', 'e', 'r', 't', ' '] + expr_text(e));
    assert(action_stmt_text((ActionStmt::Let { name, expr: e, name_id, binding_id })) =~= seq!['l', 'e', 't', ' ']
        + name@ + seq![' ', '=', ' '] + expr_text(e));
}

} // verus!
