//! Deep copies of syntax trees. A copy is the same tree with the same
//! contents; lists are new lists holding copies.
use vstd::prelude::*;
use crate::ast::{ActionStmt, Decl, Expr, Field, Stmt, Value};
use crate::binding_id::BindingId;
use crate::node::Program;
use crate::symbol::Symbol;
use crate::types::{Param, Type};

verus! {

/// Two values are the same tree with the same contents.
pub open spec fn same_value(a: Value, b: Value) -> bool
    decreases a,
{
    match a {
        Value::Number { val } => match b {
            Value::Number { val: val2 } => val == val2,
            _ => false,
        },
        Value::Bool { val } => match b {
            Value::Bool { val: val2 } => val == val2,
            _ => false,
        },
        Value::String { val } => match b {
            Value::String { val: val2 } => val == val2,
            _ => false,
        },
        Value::Closure { params, param_ids, body, env, service_name, service_name_id, service_name_binding_id } => match b {
            Value::Closure { params: params2, param_ids: param_ids2, body: body2, env: env2, service_name: service_name2, service_name_id: service_name_id2, service_name_binding_id: service_name_binding_id2 } => params@ == params2@
                && param_ids@ == param_ids2@
                && same_expr(*body, *body2)
                && same_env(env@, env2@)
                && service_name == service_name2
                && service_name_id == service_name_id2
                && service_name_binding_id == service_name_binding_id2,
            _ => false,
        },
        Value::ActionClosure { stmts, env, service_name, service_name_id, service_name_binding_id } => match b {
            Value::ActionClosure { stmts: stmts2, env: env2, service_name: service_name2, service_name_id: service_name_id2, service_name_binding_id: service_name_binding_id2 } => same_actions(stmts@, stmts2@)
                && same_env(env@, env2@)
                && service_name == service_name2
                && service_name_id == service_name_id2
                && service_name_binding_id == service_name_binding_id2,
            _ => false,
        },
    }
}

/// Two action statements are the same tree with the same contents.
pub open spec fn same_action(a: ActionStmt, b: ActionStmt) -> bool
    decreases a,
{
    match a {
        ActionStmt::Let { name, expr, name_id, binding_id } => match b {
            ActionStmt::Let { name: name2, expr: expr2, name_id: name_id2, binding_id: binding_id2 } => name == name2
                && same_expr(expr, expr2)
                && name_id == name_id2
                && binding_id == binding_id2,
            _ => false,
        },
        ActionStmt::Expr(e) => match b {
            ActionStmt::Expr(e2) => same_expr(e, e2),
            _ => false,
        },
        ActionStmt::Do(e) => match b {
            ActionStmt::Do(e2) => same_expr(e, e2),
            _ => false,
        },
        ActionStmt::Assert(e) => match b {
            ActionStmt::Assert(e2) => same_expr(e, e2),
            _ => false,
        },
        ActionStmt::Assign { var, name_id, binding_id, expr } => match b {
            ActionStmt::Assign { var: var2, name_id: name_id2, binding_id: binding_id2, expr: expr2 } => var == var2
                && name_id == name_id2
                && binding_id == binding_id2
                && same_expr(expr, expr2),
            _ => false,
        },
        ActionStmt::Insert { row, table_name, table_name_id, table_binding_id } => match b {
            ActionStmt::Insert { row: row2, table_name: table_name2, table_name_id: table_name_id2, table_binding_id: table_binding_id2 } => same_expr(row, row2)
                && table_name == table_name2
                && table_name_id == table_name_id2
                && table_binding_id == table_binding_id2,
            _ => false,
        },
    }
}

/// Two expressions are the same tree with the same contents.
pub open spec fn same_expr(a: Expr, b: Expr) -> bool
    decreases a,
{
    match a {
        Expr::Literal { val } => match b {
            Expr::Literal { val: val2 } => same_value(val, val2),
            _ => false,
        },
        Expr::Variable { ident, name_id, binding_id } => match b {
            Expr::Variable { ident: ident2, name_id: name_id2, binding_id: binding_id2 } => ident == ident2
                && name_id == name_id2
                && binding_id == binding_id2,
            _ => false,
        },
        Expr::Tuple { val } => match b {
            Expr::Tuple { val: val2 } => same_exprs(val@, val2@),
            _ => false,
        },
        Expr::KeyVal { key, key_id, key_binding_id, value } => match b {
            Expr::KeyVal { key: key2, key_id: key_id2, key_binding_id: key_binding_id2, value: value2 } => key == key2
                && key_id == key_id2
                && key_binding_id == key_binding_id2
                && same_expr(*value, *value2),
            _ => false,
        },
        Expr::Unop { op, expr } => match b {
            Expr::Unop { op: op2, expr: expr2 } => op == op2
                && same_expr(*expr, *expr2),
            _ => false,
        },
        Expr::Binop { op, expr1, expr2 } => match b {
            Expr::Binop { op: op2, expr1: expr12, expr2: expr22 } => op == op2
                && same_expr(*expr1, *expr12)
                && same_expr(*expr2, *expr22),
            _ => false,
        },
        Expr::If { cond, expr1, expr2 } => match b {
            Expr::If { cond: cond2, expr1: expr12, expr2: expr22 } => same_expr(*cond, *cond2)
                && same_expr(*expr1, *expr12)
                && same_expr(*expr2, *expr22),
            _ => false,
        },
        Expr::Func { params, param_ids, body } => match b {
            Expr::Func { params: params2, param_ids: param_ids2, body: body2 } => params@ == params2@
                && param_ids@ == param_ids2@
                && same_expr(*body, *body2),
            _ => false,
        },
        Expr::Call { func, args } => match b {
            Expr::Call { func: func2, args: args2 } => same_expr(*func, *func2)
                && same_exprs(args@, args2@),
            _ => false,
        },
        Expr::Action(stmts) => match b {
            Expr::Action(stmts2) => same_actions(stmts@, stmts2@),
            _ => false,
        },
        Expr::MemberAccess { service, service_id, service_binding_id, member, member_id, member_binding_id } => match b {
            Expr::MemberAccess { service: service2, service_id: service_id2, service_binding_id: service_binding_id2, member: member2, member_id: member_id2, member_binding_id: member_binding_id2 } => service == service2
                && service_id == service_id2
                && service_binding_id == service_binding_id2
                && member == member2
                && member_id == member_id2
                && member_binding_id == member_binding_id2,
            _ => false,
        },
        Expr::Select { table_name, table_name_id, table_binding_id, column_names, column_ids, where_clause } => match b {
            Expr::Select { table_name: table_name2, table_name_id: table_name_id2, table_binding_id: table_binding_id2, column_names: column_names2, column_ids: column_ids2, where_clause: where_clause2 } => table_name == table_name2
                && table_name_id == table_name_id2
                && table_binding_id == table_binding_id2
                && column_names@ == column_names2@
                && column_ids@ == column_ids2@
                && same_expr(*where_clause, *where_clause2),
            _ => false,
        },
        Expr::Table { schema, records } => match b {
            Expr::Table { schema: schema2, records: records2 } => schema@ == schema2@
                && same_exprs(records@, records2@),
            _ => false,
        },
        Expr::Fold { table_name, table_name_id, table_binding_id, column_name, column_name_id, column_binding_id, operation, identity } => match b {
            Expr::Fold { table_name: table_name2, table_name_id: table_name_id2, table_binding_id: table_binding_id2, column_name: column_name2, column_name_id: column_name_id2, column_binding_id: column_binding_id2, operation: operation2, identity: identity2 } => table_name == table_name2
                && table_name_id == table_name_id2
                && table_binding_id == table_binding_id2
                && column_name == column_name2
                && column_name_id == column_name_id2
                && column_binding_id == column_binding_id2
                && same_expr(*operation, *operation2)
                && same_expr(*identity, *identity2),
            _ => false,
        },
    }
}

/// Two declarations are the same tree with the same contents.
pub open spec fn same_decl(a: Decl, b: Decl) -> bool
{
    match a {
        Decl::VarDecl { name, name_id, binding_id, val } => match b {
            Decl::VarDecl { name: name2, name_id: name_id2, binding_id: binding_id2, val: val2 } => name == name2
                && name_id == name_id2
                && binding_id == binding_id2
                && same_expr(val, val2),
            _ => false,
        },
        Decl::DefDecl { name, name_id, binding_id, val, is_pub } => match b {
            Decl::DefDecl { name: name2, name_id: name_id2, binding_id: binding_id2, val: val2, is_pub: is_pub2 } => name == name2
                && name_id == name_id2
                && binding_id == binding_id2
                && same_expr(val, val2)
                && is_pub == is_pub2,
            _ => false,
        },
        Decl::TableDecl { name, name_id, binding_id, fields } => match b {
            Decl::TableDecl { name: name2, name_id: name_id2, binding_id: binding_id2, fields: fields2 } => name == name2
                && name_id == name_id2
                && binding_id == binding_id2
                && fields@ == fields2@,
            _ => false,
        },
    }
}

/// Two statements are the same tree with the same contents.
pub open spec fn same_stmt(a: Stmt, b: Stmt) -> bool
{
    match a {
        Stmt::ActionStmt(a) => match b {
            Stmt::ActionStmt(a2) => same_action(a, a2),
            _ => false,
        },
        Stmt::Update { service, service_id, service_binding_id, decls } => match b {
            Stmt::Update { service: service2, service_id: service_id2, service_binding_id: service_binding_id2, decls: decls2 } => service == service2
                && service_id == service_id2
                && service_binding_id == service_binding_id2
                && same_decls(decls@, decls2@),
            _ => false,
        },
        Stmt::Connect { path, addr } => match b {
            Stmt::Connect { path: path2, addr: addr2 } => path == path2
                && addr == addr2,
            _ => false,
        },
        Stmt::Import { path, service, service_id, service_binding_id } => match b {
            Stmt::Import { path: path2, service: service2, service_id: service_id2, service_binding_id: service_binding_id2 } => path == path2
                && service == service2
                && service_id == service_id2
                && service_binding_id == service_binding_id2,
            _ => false,
        },
        Stmt::Service { name, name_id, binding_id, decls } => match b {
            Stmt::Service { name: name2, name_id: name_id2, binding_id: binding_id2, decls: decls2 } => name == name2
                && name_id == name_id2
                && binding_id == binding_id2
                && same_decls(decls@, decls2@),
            _ => false,
        },
        Stmt::Test { service, service_id, service_binding_id, stmts } => match b {
            Stmt::Test { service: service2, service_id: service_id2, service_binding_id: service_binding_id2, stmts: stmts2 } => service == service2
                && service_id == service_id2
                && service_binding_id == service_binding_id2
                && same_actions(stmts@, stmts2@),
            _ => false,
        },
        Stmt::Watch { expr } => match b {
            Stmt::Watch { expr: expr2 } => same_expr(expr, expr2),
            _ => false,
        },
    }
}

/// Two types are the same tree.
pub open spec fn same_type(a: Type, b: Type) -> bool
    decreases a,
{
    match a {
        Type::Int => b is Int,
        Type::String => b is String,
        Type::Bool => b is Bool,
        Type::Unit => b is Unit,
        Type::Tuple(ts) => match b {
            Type::Tuple(ts2) => same_types(ts@, ts2@),
            _ => false,
        },
        Type::Func(t1, t2) => match b {
            Type::Func(t12, t22) => same_type(*t1, *t12) && same_type(*t2, *t22),
            _ => false,
        },
    }
}

/// The expressions pair up, each the same as its partner.
pub open spec fn same_exprs(s: Seq<Expr>, t: Seq<Expr>) -> bool
    decreases s,
{
    s.len() == t.len() && (s.len() == 0 || (same_exprs(s.drop_last(), t.drop_last()) && same_expr(
        s.last(),
        t.last(),
    )))
}

/// The action statements pair up, each the same as its partner.
pub open spec fn same_actions(s: Seq<ActionStmt>, t: Seq<ActionStmt>) -> bool
    decreases s,
{
    s.len() == t.len() && (s.len() == 0 || (same_actions(s.drop_last(), t.drop_last()) && same_action(
        s.last(),
        t.last(),
    )))
}

/// The environment entries pair up: equal names, the same values.
pub open spec fn same_env(s: Seq<(String, Value)>, t: Seq<(String, Value)>) -> bool
    decreases s,
{
    s.len() == t.len() && (s.len() == 0 || (same_env(s.drop_last(), t.drop_last()) && s.last().0
        == t.last().0 && same_value(s.last().1, t.last().1)))
}

/// The declarations pair up, each the same as its partner.
pub open spec fn same_decls(s: Seq<Decl>, t: Seq<Decl>) -> bool
    decreases s.len(),
{
    s.len() == t.len() && (s.len() == 0 || (same_decls(s.drop_last(), t.drop_last()) && same_decl(
        s.last(),
        t.last(),
    )))
}

/// The statements pair up, each the same as its partner.
pub open spec fn same_stmts(s: Seq<Stmt>, t: Seq<Stmt>) -> bool
    decreases s.len(),
{
    s.len() == t.len() && (s.len() == 0 || (same_stmts(s.drop_last(), t.drop_last()) && same_stmt(
        s.last(),
        t.last(),
    )))
}

/// The types pair up, each the same as its partner.
pub open spec fn same_types(s: Seq<Type>, t: Seq<Type>) -> bool
    decreases s,
{
    s.len() == t.len() && (s.len() == 0 || (same_types(s.drop_last(), t.drop_last()) && same_type(
        s.last(),
        t.last(),
    )))
}

/// Two parameters have the same name and the same annotation.
pub open spec fn same_param(a: Param, b: Param) -> bool {
    a.name == b.name && match a.ty {
        Some(x) => match b.ty {
            Some(y) => same_type(x, y),
            None => false,
        },
        None => b.ty is None,
    }
}

/// Two programs come from the same path and hold the same statements.
pub open spec fn same_program(a: Program, b: Program) -> bool {
    a.path == b.path && same_stmts(a.ast@, b.ast@)
}

/// A copy of a list of strings.
pub fn copy_strings(v: &Vec<String>) -> (res: Vec<String>)
    ensures
        res@ == v@,
{
    let mut res: Vec<String> = Vec::new();
    let mut i: usize = 0;
    while i < v.len()
        invariant
            i <= v.len(),
            res@ == v@.take(i as int),
        decreases v.len() - i,
    {
        res.push(v[i].clone());
        i = i + 1;
        assert(res@ =~= v@.take(i as int));
    }
    assert(v@.take(v.len() as int) =~= v@);
    res
}

/// A copy of a list of symbol and binding pairs.
pub fn copy_ids(v: &Vec<(Symbol, BindingId)>) -> (res: Vec<(Symbol, BindingId)>)
    ensures
        res@ == v@,
{
    let mut res: Vec<(Symbol, BindingId)> = Vec::new();
    let mut i: usize = 0;
    while i < v.len()
        invariant
            i <= v.len(),
            res@ == v@.take(i as int),
        decreases v.len() - i,
    {
        res.push(v[i]);
        i = i + 1;
        assert(res@ =~= v@.take(i as int));
    }
    assert(v@.take(v.len() as int) =~= v@);
    res
}

/// A copy of a column.
pub fn copy_field(f: &Field) -> (res: Field)
    ensures
        res == *f,
{
    Field { name: f.name.clone(), name_id: f.name_id, binding_id: f.binding_id, type_: f.type_ }
}

/// A copy of a list of columns.
pub fn copy_fields(v: &Vec<Field>) -> (res: Vec<Field>)
    ensures
        res@ == v@,
{
    let mut res: Vec<Field> = Vec::new();
    let mut i: usize = 0;
    while i < v.len()
        invariant
            i <= v.len(),
            res@ == v@.take(i as int),
        decreases v.len() - i,
    {
        res.push(copy_field(&v[i]));
        i = i + 1;
        assert(res@ =~= v@.take(i as int));
    }
    assert(v@.take(v.len() as int) =~= v@);
    res
}

/// A deep copy of a list of expressions.
pub fn copy_exprs(v: &Vec<Expr>) -> (res: Vec<Expr>)
    ensures
        same_exprs(res@, v@),
    decreases v, 0nat,
{
    let mut res: Vec<Expr> = Vec::new();
    let mut i: usize = 0;
    while i < v.len()
        invariant
            i <= v.len(),
            same_exprs(res@, v@.take(i as int)),
        decreases v.len() - i,
    {
        let c = copy_expr(&v[i]);
        let ghost before = res@;
        res.push(c);
        assert(res@.drop_last() =~= before);
        assert(v@.take(i + 1).drop_last() =~= v@.take(i as int));
        i = i + 1;
    }
    assert(v@.take(v.len() as int) =~= v@);
    res
}

/// A deep copy of a list of action statements.
pub fn copy_actions(v: &Vec<ActionStmt>) -> (res: Vec<ActionStmt>)
    ensures
        same_actions(res@, v@),
    decreases v, 0nat,
{
    let mut res: Vec<ActionStmt> = Vec::new();
    let mut i: usize = 0;
    while i < v.len()
        invariant
            i <= v.len(),
            same_actions(res@, v@.take(i as int)),
        decreases v.len() - i,
    {
        let c = copy_action(&v[i]);
        let ghost before = res@;
        res.push(c);
        assert(res@.drop_last() =~= before);
        assert(v@.take(i + 1).drop_last() =~= v@.take(i as int));
        i = i + 1;
    }
    assert(v@.take(v.len() as int) =~= v@);
    res
}

/// A deep copy of an environment.
pub fn copy_env(v: &Vec<(String, Value)>) -> (res: Vec<(String, Value)>)
    ensures
        same_env(res@, v@),
    decreases v, 0nat,
{
    let mut res: Vec<(String, Value)> = Vec::new();
    let mut i: usize = 0;
    while i < v.len()
        invariant
            i <= v.len(),
            same_env(res@, v@.take(i as int)),
        decreases v.len() - i,
    {
        let c = (v[i].0.clone(), copy_value(&v[i].1));
        let ghost before = res@;
        res.push(c);
        assert(res@.drop_last() =~= before);
        assert(v@.take(i + 1).drop_last() =~= v@.take(i as int));
        i = i + 1;
    }
    assert(v@.take(v.len() as int) =~= v@);
    res
}

/// A deep copy of a list of declarations.
pub fn copy_decls(v: &Vec<Decl>) -> (res: Vec<Decl>)
    ensures
        same_decls(res@, v@),
{
    let mut res: Vec<Decl> = Vec::new();
    let mut i: usize = 0;
    while i < v.len()
        invariant
            i <= v.len(),
            same_decls(res@, v@.take(i as int)),
        decreases v.len() - i,
    {
        let c = copy_decl(&v[i]);
        let ghost before = res@;
        res.push(c);
        assert(res@.drop_last() =~= before);
        assert(v@.take(i + 1).drop_last() =~= v@.take(i as int));
        i = i + 1;
    }
    assert(v@.take(v.len() as int) =~= v@);
    res
}

/// A deep copy of a list of statements.
pub fn copy_stmts(v: &Vec<Stmt>) -> (res: Vec<Stmt>)
    ensures
        same_stmts(res@, v@),
{
    let mut res: Vec<Stmt> = Vec::new();
    let mut i: usize = 0;
    while i < v.len()
        invariant
            i <= v.len(),
            same_stmts(res@, v@.take(i as int)),
        decreases v.len() - i,
    {
        let c = copy_stmt(&v[i]);
        let ghost before = res@;
        res.push(c);
        assert(res@.drop_last() =~= before);
        assert(v@.take(i + 1).drop_last() =~= v@.take(i as int));
        i = i + 1;
    }
    assert(v@.take(v.len() as int) =~= v@);
    res
}

/// A deep copy of a list of types.
pub fn copy_types(v: &Vec<Type>) -> (res: Vec<Type>)
    ensures
        same_types(res@, v@),
    decreases v, 0nat,
{
    let mut res: Vec<Type> = Vec::new();
    let mut i: usize = 0;
    while i < v.len()
        invariant
            i <= v.len(),
            same_types(res@, v@.take(i as int)),
        decreases v.len() - i,
    {
        let c = copy_type(&v[i]);
        let ghost before = res@;
        res.push(c);
        assert(res@.drop_last() =~= before);
        assert(v@.take(i + 1).drop_last() =~= v@.take(i as int));
        i = i + 1;
    }
    assert(v@.take(v.len() as int) =~= v@);
    res
}

impl Clone for Field {
    /// A copy of the column.
    fn clone(&self) -> (res: Self)
        ensures
            res == *self,
    {
        copy_field(self)
    }
}

impl Clone for Value {
    /// A deep copy: the same tree with the same contents.
    fn clone(&self) -> (res: Self)
        ensures
            same_value(res, *self),
    {
        copy_value(self)
    }
}

impl Clone for ActionStmt {
    /// A deep copy: the same tree with the same contents.
    fn clone(&self) -> (res: Self)
        ensures
            same_action(res, *self),
    {
        copy_action(self)
    }
}

impl Clone for Expr {
    /// A deep copy: the same tree with the same contents.
    fn clone(&self) -> (res: Self)
        ensures
            same_expr(res, *self),
    {
        copy_expr(self)
    }
}

impl Clone for Decl {
    /// A deep copy: the same tree with the same contents.
    fn clone(&self) -> (res: Self)
        ensures
            same_decl(res, *self),
    {
        copy_decl(self)
    }
}

impl Clone for Stmt {
    /// A deep copy: the same tree with the same contents.
    fn clone(&self) -> (res: Self)
        ensures
            same_stmt(res, *self),
    {
        copy_stmt(self)
    }
}

impl Clone for Type {
    /// A deep copy of the type.
    fn clone(&self) -> (res: Self)
        ensures
            same_type(res, *self),
    {
        copy_type(self)
    }
}

impl Clone for Param {
    /// A copy of the parameter and its annotation.
    fn clone(&self) -> (res: Self)
        ensures
            same_param(res, *self),
    {
        let ty = match &self.ty {
            Some(t) => Some(copy_type(t)),
            None => None,
        };
        Param { name: self.name, ty }
    }
}

impl Clone for Program {
    /// A copy of the program: its path and a deep copy of its statements.
    fn clone(&self) -> (res: Self)
        ensures
            same_program(res, *self),
    {
        Program { path: self.path.clone(), ast: copy_stmts(&self.ast) }
    }
}
/// A deep copy of a value.
pub fn copy_value(x: &Value) -> (res: Value)
    ensures
        same_value(res, *x),
    decreases x, 1nat,
{
    match x {
        Value::Number { val } => Value::Number {
            val: *val,
        },
        Value::Bool { val } => Value::Bool {
            val: *val,
        },
        Value::String { val } => Value::String {
            val: val.clone(),
        },
        Value::Closure { params, param_ids, body, env, service_name, service_name_id, service_name_binding_id } => Value::Closure {
            params: copy_strings(params),
            param_ids: copy_ids(param_ids),
            body: Box::new(copy_expr(&**body)),
            env: copy_env(env),
            service_name: service_name.clone(),
            service_name_id: *service_name_id,
            service_name_binding_id: *service_name_binding_id,
        },
        Value::ActionClosure { stmts, env, service_name, service_name_id, service_name_binding_id } => Value::ActionClosure {
            stmts: copy_actions(stmts),
            env: copy_env(env),
            service_name: service_name.clone(),
            service_name_id: *service_name_id,
            service_name_binding_id: *service_name_binding_id,
        },
    }
}

/// A deep copy of an action statement.
pub fn copy_action(x: &ActionStmt) -> (res: ActionStmt)
    ensures
        same_action(res, *x),
    decreases x, 1nat,
{
    match x {
        ActionStmt::Let { name, expr, name_id, binding_id } => ActionStmt::Let {
            name: name.clone(),
            expr: copy_expr(expr),
            name_id: *name_id,
            binding_id: *binding_id,
        },
        ActionStmt::Expr(e) => ActionStmt::Expr(copy_expr(e)),
        ActionStmt::Do(e) => ActionStmt::Do(copy_expr(e)),
        ActionStmt::Assert(e) => ActionStmt::Assert(copy_expr(e)),
        ActionStmt::Assign { var, name_id, binding_id, expr } => ActionStmt::Assign {
            var: var.clone(),
            name_id: *name_id,
            binding_id: *binding_id,
            expr: copy_expr(expr),
        },
        ActionStmt::Insert { row, table_name, table_name_id, table_binding_id } => ActionStmt::Insert {
            row: copy_expr(row),
            table_name: table_name.clone(),
            table_name_id: *table_name_id,
            table_binding_id: *table_binding_id,
        },
    }
}

/// A deep copy of an expression.
pub fn copy_expr(x: &Expr) -> (res: Expr)
    ensures
        same_expr(res, *x),
    decreases x, 1nat,
{
    match x {
        Expr::Literal { val } => Expr::Literal {
            val: copy_value(val),
        },
        Expr::Variable { ident, name_id, binding_id } => Expr::Variable {
            ident: ident.clone(),
            name_id: *name_id,
            binding_id: *binding_id,
        },
        Expr::Tuple { val } => Expr::Tuple {
            val: copy_exprs(val),
        },
        Expr::KeyVal { key, key_id, key_binding_id, value } => Expr::KeyVal {
            key: key.clone(),
            key_id: *key_id,
            key_binding_id: *key_binding_id,
            value: Box::new(copy_expr(&**value)),
        },
        Expr::Unop { op, expr } => Expr::Unop {
            op: *op,
            expr: Box::new(copy_expr(&**expr)),
        },
        Expr::Binop { op, expr1, expr2 } => Expr::Binop {
            op: *op,
            expr1: Box::new(copy_expr(&**expr1)),
            expr2: Box::new(copy_expr(&**expr2)),
        },
        Expr::If { cond, expr1, expr2 } => Expr::If {
            cond: Box::new(copy_expr(&**cond)),
            expr1: Box::new(copy_expr(&**expr1)),
            expr2: Box::new(copy_expr(&**expr2)),
        },
        Expr::Func { params, param_ids, body } => Expr::Func {
            params: copy_strings(params),
            param_ids: copy_ids(param_ids),
            body: Box::new(copy_expr(&**body)),
        },
        Expr::Call { func, args } => Expr::Call {
            func: Box::new(copy_expr(&**func)),
            args: copy_exprs(args),
        },
        Expr::Action(stmts) => Expr::Action(copy_actions(stmts)),
        Expr::MemberAccess { service, service_id, service_binding_id, member, member_id, member_binding_id } => Expr::MemberAccess {
            service: service.clone(),
            service_id: *service_id,
            service_binding_id: *service_binding_id,
            member: member.clone(),
            member_id: *member_id,
            member_binding_id: *member_binding_id,
        },
        Expr::Select { table_name, table_name_id, table_binding_id, column_names, column_ids, where_clause } => Expr::Select {
            table_name: table_name.clone(),
            table_name_id: *table_name_id,
            table_binding_id: *table_binding_id,
            column_names: copy_strings(column_names),
            column_ids: copy_ids(column_ids),
            where_clause: Box::new(copy_expr(&**where_clause)),
        },
        Expr::Table { schema, records } => Expr::Table {
            schema: copy_fields(schema),
            records: copy_exprs(records),
        },
        Expr::Fold { table_name, table_name_id, table_binding_id, column_name, column_name_id, column_binding_id, operation, identity } => Expr::Fold {
            table_name: table_name.clone(),
            table_name_id: *table_name_id,
            table_binding_id: *table_binding_id,
            column_name: column_name.clone(),
            column_name_id: *column_name_id,
            column_binding_id: *column_binding_id,
            operation: Box::new(copy_expr(&**operation)),
            identity: Box::new(copy_expr(&**identity)),
        },
    }
}

/// A deep copy of a declaration.
pub fn copy_decl(x: &Decl) -> (res: Decl)
    ensures
        same_decl(res, *x),
{
    match x {
        Decl::VarDecl { name, name_id, binding_id, val } => Decl::VarDecl {
            name: name.clone(),
            name_id: *name_id,
            binding_id: *binding_id,
            val: copy_expr(val),
        },
        Decl::DefDecl { name, name_id, binding_id, val, is_pub } => Decl::DefDecl {
            name: name.clone(),
            name_id: *name_id,
            binding_id: *binding_id,
            val: copy_expr(val),
            is_pub: *is_pub,
        },
        Decl::TableDecl { name, name_id, binding_id, fields } => Decl::TableDecl {
            name: name.clone(),
            name_id: *name_id,
            binding_id: *binding_id,
            fields: copy_fields(fields),
        },
    }
}

/// A deep copy of a statement.
pub fn copy_stmt(x: &Stmt) -> (res: Stmt)
    ensures
        same_stmt(res, *x),
{
    match x {
        Stmt::ActionStmt(a) => Stmt::ActionStmt(copy_action(a)),
        Stmt::Update { service, service_id, service_binding_id, decls } => Stmt::Update {
            service: service.clone(),
            service_id: *service_id,
            service_binding_id: *service_binding_id,
            decls: copy_decls(decls),
        },
        Stmt::Connect { path, addr } => Stmt::Connect {
            path: path.clone(),
            addr: addr.clone(),
        },
        Stmt::Import { path, service, service_id, service_binding_id } => Stmt::Import {
            path: path.clone(),
            service: service.clone(),
            service_id: *service_id,
            service_binding_id: *service_binding_id,
        },
        Stmt::Service { name, name_id, binding_id, decls } => Stmt::Service {
            name: name.clone(),
            name_id: *name_id,
            binding_id: *binding_id,
            decls: copy_decls(decls),
        },
        Stmt::Test { service, service_id, service_binding_id, stmts } => Stmt::Test {
            service: service.clone(),
            service_id: *service_id,
            service_binding_id: *service_binding_id,
            stmts: copy_actions(stmts),
        },
        Stmt::Watch { expr } => Stmt::Watch {
            expr: copy_expr(expr),
        },
    }
}

/// A deep copy of a type.
pub fn copy_type(x: &Type) -> (res: Type)
    ensures
        same_type(res, *x),
    decreases x, 1nat,
{
    match x {
        Type::Int => Type::Int,
        Type::String => Type::String,
        Type::Bool => Type::Bool,
        Type::Unit => Type::Unit,
        Type::Tuple(ts) => Type::Tuple(copy_types(ts)),
        Type::Func(t1, t2) => Type::Func(Box::new(copy_type(&**t1)), Box::new(copy_type(&**t2))),
    }
}

} // verus!
