//! The abstract syntax of Meerkat programs.
use vstd::prelude::*;
use crate::binding_id::BindingId;
use crate::symbol::Symbol;

verus! {

/// Unary operators.
#[derive(Debug, Clone, Copy, PartialEq, Eq, Hash, Structural)]
pub enum UnOp {
    /// Arithmetic negation.
    Neg,
    /// Logical not.
    Not,
}

/// Binary operators.
#[derive(Debug, Clone, Copy, PartialEq, Eq, Hash, Structural)]
pub enum BinOp {
    Add,
    Sub,
    Mul,
    Div,
    Eq,
    Lt,
    Gt,
    And,
    Or,
}

/// Statements that may run inside an action.
///
/// `Clone` is written out in `cloning.rs`, with a contract that the copy is
/// the same tree.
#[derive(Debug, PartialEq, Eq, Hash)]
pub enum ActionStmt {
    Let { name: String, expr: Expr, name_id: Symbol, binding_id: BindingId },
    Expr(Expr),
    Do(Expr),
    Assert(Expr),
    Assign { var: String, name_id: Symbol, binding_id: BindingId, expr: Expr },
    Insert { row: Expr, table_name: String, table_name_id: Symbol, table_binding_id: BindingId },
}

/// Top-level statements of a program.
///
/// `Clone` is written out in `cloning.rs`, with a contract that the copy is
/// the same tree.
#[derive(Debug, PartialEq, Eq, Hash)]
pub enum Stmt {
    ActionStmt(ActionStmt),
    Update { service: String, service_id: Symbol, service_binding_id: BindingId, decls: Vec<Decl> },
    Connect { path: String, addr: String },
    Import { path: String, service: String, service_id: Symbol, service_binding_id: BindingId },
    Service { name: String, name_id: Symbol, binding_id: BindingId, decls: Vec<Decl> },
    Test { service: String, service_id: Symbol, service_binding_id: BindingId, stmts: Vec<ActionStmt> },
    Watch { expr: Expr },
}

/// Run-time values.
///
/// `Clone` is written out in `cloning.rs`, with a contract that the copy is
/// the same tree.
#[derive(Debug, PartialEq, Eq, Hash)]
pub enum Value {
    Number { val: i32 },
    Bool { val: bool },
    String { val: String },
    Closure {
        params: Vec<String>,
        param_ids: Vec<(Symbol, BindingId)>,
        body: Box<Expr>,
        env: Vec<(String, Value)>,
        service_name: String,
        service_name_id: Symbol,
        service_name_binding_id: BindingId,
    },
    ActionClosure {
        stmts: Vec<ActionStmt>,
        env: Vec<(String, Value)>,
        service_name: String,
        service_name_id: Symbol,
        service_name_binding_id: BindingId,
    },
}

/// Expressions.
///
/// `Clone` is written out in `cloning.rs`, with a contract that the copy is
/// the same tree.
#[derive(Debug, PartialEq, Eq, Hash)]
pub enum Expr {
    Literal { val: Value },
    Variable { ident: String, name_id: Symbol, binding_id: BindingId },
    Tuple { val: Vec<Expr> },
    KeyVal { key: String, key_id: Symbol, key_binding_id: BindingId, value: Box<Expr> },
    Unop { op: UnOp, expr: Box<Expr> },
    Binop { op: BinOp, expr1: Box<Expr>, expr2: Box<Expr> },
    If { cond: Box<Expr>, expr1: Box<Expr>, expr2: Box<Expr> },
    Func { params: Vec<String>, param_ids: Vec<(Symbol, BindingId)>, body: Box<Expr> },
    Call { func: Box<Expr>, args: Vec<Expr> },
    Action(Vec<ActionStmt>),
    MemberAccess {
        service: String,
        service_id: Symbol,
        service_binding_id: BindingId,
        member: String,
        member_id: Symbol,
        member_binding_id: BindingId,
    },
    Select {
        table_name: String,
        table_name_id: Symbol,
        table_binding_id: BindingId,
        column_names: Vec<String>,
        column_ids: Vec<(Symbol, BindingId)>,
        where_clause: Box<Expr>,
    },
    Table { schema: Vec<Field>, records: Vec<Expr> },
    Fold {
        table_name: String,
        table_name_id: Symbol,
        table_binding_id: BindingId,
        column_name: String,
        column_name_id: Symbol,
        column_binding_id: BindingId,
        operation: Box<Expr>,
        identity: Box<Expr>,
    },
}

/// Declarations inside a service.
///
/// `Clone` is written out in `cloning.rs`, with a contract that the copy is
/// the same tree.
#[derive(Debug, PartialEq, Eq, Hash)]
pub enum Decl {
    VarDecl { name: String, name_id: Symbol, binding_id: BindingId, val: Expr },
    DefDecl { name: String, name_id: Symbol, binding_id: BindingId, val: Expr, is_pub: bool },
    TableDecl { name: String, name_id: Symbol, binding_id: BindingId, fields: Vec<Field> },
}

/// A column of a table.
///
/// `Clone` is written out in `cloning.rs`, with a contract that the copy is
/// the same tree.
#[derive(Debug, PartialEq, Eq, Hash)]
pub struct Field {
    pub name: String,
    pub name_id: Symbol,
    pub binding_id: BindingId,
    pub type_: DataType,
}

/// The type of a table column.
#[derive(Debug, Clone, Copy, PartialEq, Eq, Hash, Structural)]
pub enum DataType {
    String,
    Number,
    Bool,
}

} // verus!
