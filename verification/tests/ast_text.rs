use meerkat::ast::{ActionStmt, BinOp, DataType, Decl, Expr, Field, Stmt, UnOp, Value};
use meerkat::binding_id::BindingId;
use meerkat::printer::AstPrinter;
use meerkat::symbol::Symbol;

// ---------------------------------------------------------------------------
// Building blocks for sample trees.

fn num(n: i32) -> Expr {
    Expr::Literal { val: Value::Number { val: n } }
}

fn var(name: &str, id: u32, b: u64) -> Expr {
    Expr::Variable { ident: name.to_string(), name_id: Symbol(id), binding_id: BindingId(b) }
}

fn field(name: &str, t: DataType) -> Field {
    Field { name: name.to_string(), name_id: Symbol(5), binding_id: BindingId(6), type_: t }
}

fn sample_exprs() -> Vec<Expr> {
    vec![
        num(-42),
        Expr::Literal { val: Value::Bool { val: true } },
        Expr::Literal { val: Value::String { val: "hi \"there\"\n".to_string() } },
        var("x", 1, 2),
        Expr::Tuple { val: vec![] },
        Expr::Tuple { val: vec![num(1), var("y", 3, 4)] },
        Expr::KeyVal { key: "k".to_string(), key_id: Symbol(7), key_binding_id: BindingId(8), value: Box::new(num(9)) },
        Expr::Unop { op: UnOp::Neg, expr: Box::new(num(3)) },
        Expr::Unop { op: UnOp::Not, expr: Box::new(var("b", 0, 0)) },
        Expr::Binop { op: BinOp::Add, expr1: Box::new(num(1)), expr2: Box::new(var("x", 3, 4)) },
        Expr::Binop { op: BinOp::Or, expr1: Box::new(num(1)), expr2: Box::new(num(2)) },
        Expr::If { cond: Box::new(var("c", 1, 1)), expr1: Box::new(num(1)), expr2: Box::new(num(2)) },
        Expr::Func {
            params: vec!["a".to_string(), "b\\c".to_string()],
            param_ids: vec![(Symbol(1), BindingId(10)), (Symbol(2), BindingId(20))],
            body: Box::new(var("a", 1, 10)),
        },
        Expr::Func { params: vec![], param_ids: vec![], body: Box::new(num(0)) },
        Expr::Call { func: Box::new(var("f", 2, 3)), args: vec![] },
        Expr::Call {
            func: Box::new(var("f", 2, 3)),
            args: vec![num(1), Expr::Literal { val: Value::String { val: "s".to_string() } }],
        },
        Expr::Action(vec![]),
        Expr::Action(vec![
            ActionStmt::Let { name: "x".to_string(), expr: num(1), name_id: Symbol(1), binding_id: BindingId(2) },
            ActionStmt::Do(var("f", 0, 0)),
            ActionStmt::Expr(Expr::Literal { val: Value::String { val: "q\"".to_string() } }),
        ]),
        Expr::MemberAccess {
            service: "svc".to_string(),
            service_id: Symbol(11),
            service_binding_id: BindingId(12),
            member: "m".to_string(),
            member_id: Symbol(13),
            member_binding_id: BindingId(14),
        },
        Expr::Select {
            table_name: "t".to_string(),
            table_name_id: Symbol(1),
            table_binding_id: BindingId(2),
            column_names: vec!["c1".to_string(), "c2".to_string()],
            column_ids: vec![(Symbol(3), BindingId(4))],
            where_clause: Box::new(Expr::Binop { op: BinOp::Gt, expr1: Box::new(var("c1", 3, 4)), expr2: Box::new(num(5)) }),
        },
        Expr::Table { schema: vec![], records: vec![] },
        Expr::Table {
            schema: vec![field("id", DataType::Number), field("name", DataType::String), field("ok", DataType::Bool)],
            records: vec![Expr::Tuple { val: vec![num(1), num(2)] }, var("r", 0, 0), Expr::Tuple { val: vec![] }],
        },
        Expr::Fold {
            table_name: "t".to_string(),
            table_name_id: Symbol(1),
            table_binding_id: BindingId(2),
            column_name: "c".to_string(),
            column_name_id: Symbol(3),
            column_binding_id: BindingId(4),
            operation: Box::new(var("plus", 5, 6)),
            identity: Box::new(num(0)),
        },
        Expr::Literal {
            val: Value::Closure {
                params: vec!["a".to_string()],
                param_ids: vec![(Symbol(1), BindingId(2))],
                body: Box::new(var("a", 1, 2)),
                env: vec![("x".to_string(), Value::Number { val: 1 }), ("s".to_string(), Value::String { val: "é\t".to_string() })],
                service_name: "svc".to_string(),
                service_name_id: Symbol(3),
                service_name_binding_id: BindingId(4),
            },
        },
        Expr::Literal {
            val: Value::ActionClosure {
                stmts: vec![
                    ActionStmt::Do(var("f", 0, 0)),
                    ActionStmt::Assert(Expr::Binop { op: BinOp::Eq, expr1: Box::new(num(1)), expr2: Box::new(num(1)) }),
                    ActionStmt::Assign { var: "v".to_string(), name_id: Symbol(1), binding_id: BindingId(2), expr: num(3) },
                    ActionStmt::Insert {
                        row: Expr::Tuple { val: vec![num(1)] },
                        table_name: "t".to_string(),
                        table_name_id: Symbol(4),
                        table_binding_id: BindingId(5),
                    },
                ],
                env: vec![],
                service_name: "svc".to_string(),
                service_name_id: Symbol(3),
                service_name_binding_id: BindingId(4),
            },
        },
    ]
}

fn sample_actions() -> Vec<ActionStmt> {
    vec![
        ActionStmt::Let { name: "x".to_string(), expr: num(1), name_id: Symbol(1), binding_id: BindingId(2) },
        ActionStmt::Expr(var("e", 0, 0)),
        ActionStmt::Do(var("f", 0, 0)),
        ActionStmt::Assert(num(0)),
        ActionStmt::Assign { var: "v".to_string(), name_id: Symbol(1), binding_id: BindingId(2), expr: num(3) },
        ActionStmt::Insert {
            row: Expr::Tuple { val: vec![num(1), num(2)] },
            table_name: "t".to_string(),
            table_name_id: Symbol(4),
            table_binding_id: BindingId(5),
        },
    ]
}

fn sample_decls() -> Vec<Decl> {
    vec![
        Decl::VarDecl { name: "x".to_string(), name_id: Symbol(1), binding_id: BindingId(2), val: num(1) },
        Decl::DefDecl { name: "y".to_string(), name_id: Symbol(3), binding_id: BindingId(4), val: num(2), is_pub: true },
        Decl::DefDecl { name: "z".to_string(), name_id: Symbol(5), binding_id: BindingId(6), val: var("x", 1, 2), is_pub: false },
        Decl::TableDecl { name: "t".to_string(), name_id: Symbol(7), binding_id: BindingId(8), fields: vec![field("id", DataType::Number)] },
        Decl::TableDecl { name: "u".to_string(), name_id: Symbol(9), binding_id: BindingId(10), fields: vec![] },
    ]
}

fn sample_stmts() -> Vec<Stmt> {
    vec![
        Stmt::ActionStmt(ActionStmt::Do(var("f", 0, 0))),
        Stmt::Update { service: "s".to_string(), service_id: Symbol(1), service_binding_id: BindingId(2), decls: sample_decls() },
        Stmt::Update { service: "s".to_string(), service_id: Symbol(1), service_binding_id: BindingId(2), decls: vec![] },
        Stmt::Connect { path: "p".to_string(), addr: "/ip4/1.2.3.4".to_string() },
        Stmt::Import { path: "lib.mkt".to_string(), service: "lib".to_string(), service_id: Symbol(3), service_binding_id: BindingId(4) },
        Stmt::Service { name: "svc".to_string(), name_id: Symbol(5), binding_id: BindingId(6), decls: sample_decls() },
        Stmt::Test { service: "svc".to_string(), service_id: Symbol(5), service_binding_id: BindingId(6), stmts: sample_actions() },
        Stmt::Watch { expr: num(1) },
    ]
}

// ---------------------------------------------------------------------------
// The human-readable text, written the way `Display` writes it.

fn ref_value(v: &Value) -> String {
    match v {
        Value::Number { val } => format!("{}", val),
        Value::Bool { val } => format!("{}", val),
        Value::String { val } => format!("\"{}\"", val),
        Value::Closure { params, body, env, .. } => format!("fn({})[{:?}]{{{}}}", params.join(","), env, ref_expr(body)),
        Value::ActionClosure { stmts, env, service_name, .. } => format!("action[{:?}][{}]{{{:?}}}", env, service_name, stmts),
    }
}

fn ref_unop(op: &UnOp) -> &'static str {
    match op {
        UnOp::Neg => "-",
        UnOp::Not => "!",
    }
}

fn ref_binop(op: &BinOp) -> &'static str {
    match op {
        BinOp::Add => "+",
        BinOp::Sub => "-",
        BinOp::Mul => "*",
        BinOp::Div => "/",
        BinOp::Eq => "==",
        BinOp::Lt => "<",
        BinOp::Gt => ">",
        BinOp::And => "&&",
        BinOp::Or => "||",
    }
}

fn ref_expr(e: &Expr) -> String {
    match e {
        Expr::Literal { val } => ref_value(val),
        Expr::Tuple { .. } => "vector".to_string(),
        Expr::KeyVal { key, value, .. } => format!("keyval: {}, {}", key, ref_expr(value)),
        Expr::Variable { ident, .. } => ident.clone(),
        Expr::Unop { op, expr } => format!("{}{}", ref_unop(op), ref_expr(expr)),
        Expr::Binop { op, expr1, expr2 } => format!("{} {} {}", ref_expr(expr1), ref_binop(op), ref_expr(expr2)),
        Expr::If { cond, expr1, expr2 } => format!("if {} then {} else {}", ref_expr(cond), ref_expr(expr1), ref_expr(expr2)),
        Expr::Func { params, body, .. } => format!("fn({})[{}]", params.join(","), ref_expr(body)),
        Expr::Call { func, args } => format!("{}({})", ref_expr(func), args.iter().map(ref_expr).collect::<Vec<_>>().join(", ")),
        Expr::Action(stmts) => format!("Action({:?})", stmts.iter().map(ref_action).collect::<Vec<_>>().join(", ")),
        Expr::MemberAccess { service, member, .. } => format!("{}.{}", service, member),
        Expr::Select { where_clause, .. } => ref_expr(where_clause),
        Expr::Table { records, .. } => {
            let mut f = String::new();
            f.push_str(&format!("["));
            for (i, record) in records.iter().enumerate() {
                if i > 0 {
                    f.push_str(&format!(", "));
                }
                f.push_str(&format!("{{"));
                match record {
                    Expr::Tuple { val } => {
                        for (j, entry) in val.iter().enumerate() {
                            if j > 0 {
                                f.push_str(&format!(", "));
                            }
                            f.push_str(&format!("{}", ref_expr(entry)));
                        }
                    }
                    other => f.push_str(&format!("{}", ref_expr(other))),
                }
                f.push_str(&format!("}}"));
            }
            f.push_str(&format!("]"));
            f
        }
        Expr::Fold { .. } => "fold".to_string(),
    }
}

fn ref_action(a: &ActionStmt) -> String {
    match a {
        ActionStmt::Let { name, expr, .. } => format!("let {} = {}", name, ref_expr(expr)),
        ActionStmt::Expr(expr) => ref_expr(expr),
        ActionStmt::Do(expr) => format!("do {}", ref_expr(expr)),
        ActionStmt::Assert(expr) => format!("assert {}", ref_expr(expr)),
        ActionStmt::Assign { var, expr, .. } => format!("{} = {}", var, ref_expr(expr)),
        ActionStmt::Insert { row, table_name, .. } => format!("insert into {} {}", table_name, ref_expr(row)),
    }
}

fn ref_decl(d: &Decl) -> String {
    match d {
        Decl::VarDecl { name, val, .. } => format!("var {} = {}", name, ref_expr(val)),
        Decl::DefDecl { name, val, is_pub, .. } => {
            if *is_pub {
                format!("pub def {} = {}", name, ref_expr(val))
            } else {
                format!("def {} = {}", name, ref_expr(val))
            }
        }
        Decl::TableDecl { name, .. } => format!("table {} created", name),
    }
}

// ---------------------------------------------------------------------------
// The indented listing, written line by line the way the printer prints it.

struct RefPrinter {
    spaces: usize,
    out: String,
}

impl RefPrinter {
    fn line(&mut self, s: String) {
        self.out.push_str(&s);
        self.out.push('\n');
    }

    fn indent(&mut self, indent: usize) {
        let s = " ".repeat(indent * self.spaces);
        self.out.push_str(&s);
    }

    fn stmt(&mut self, stmt: &Stmt, indent: usize) {
        self.indent(indent);
        match stmt {
            Stmt::ActionStmt(action) => {
                self.line(format!("ActionStmt:"));
                self.action(action, indent + 1);
            }
            Stmt::Update { service, service_id, service_binding_id, decls } => {
                self.line(format!("Update: {{ service: \"{}\", service_id: {}, service_binding_id: {} }}", service, service_id.0, service_binding_id.0));
                for decl in decls {
                    self.decl(decl, indent + 1);
                }
            }
            Stmt::Connect { path, addr } => {
                self.line(format!("Connect: {{ path: \"{}\", addr: \"{}\" }}", path, addr));
            }
            Stmt::Import { path, service, service_id, service_binding_id } => {
                self.line(format!("Import: {{ path: \"{}\", service: \"{}\", service_id: {}, service_binding_id: {} }}", path, service, service_id.0, service_binding_id.0));
            }
            Stmt::Service { name, name_id, binding_id, decls } => {
                self.line(format!("Service: {{ name: \"{}\", name_id: {}, binding_id: {} }}", name, name_id.0, binding_id.0));
                for decl in decls {
                    self.decl(decl, indent + 1);
                }
            }
            Stmt::Test { service, service_id, service_binding_id, stmts } => {
                self.line(format!("Test: {{ service: \"{}\", service_id: {}, service_binding_id: {} }}", service, service_id.0, service_binding_id.0));
                for s in stmts {
                    self.action(s, indent + 1);
                }
            }
            Stmt::Watch { expr } => {
                self.line(format!("Watch:"));
                self.expr(expr, indent + 1);
            }
        }
    }

    fn decl(&mut self, decl: &Decl, indent: usize) {
        self.indent(indent);
        match decl {
            Decl::VarDecl { name, name_id, binding_id, val } => {
                self.line(format!("VarDecl: {{ name: \"{}\", name_id: {}, binding_id: {} }}", name, name_id.0, binding_id.0));
                self.expr(val, indent + 1);
            }
            Decl::DefDecl { name, name_id, binding_id, val, is_pub } => {
                self.line(format!("DefDecl: {{ name: \"{}\", name_id: {}, binding_id: {}, is_pub: {} }}", name, name_id.0, binding_id.0, is_pub));
                self.expr(val, indent + 1);
            }
            Decl::TableDecl { name, name_id, binding_id, fields } => {
                self.line(format!("TableDecl: {{ name: \"{}\", name_id: {}, binding_id: {} }}", name, name_id.0, binding_id.0));
                for field in fields {
                    self.field(field, indent + 1);
                }
            }
        }
    }

    fn field(&mut self, field: &Field, indent: usize) {
        self.indent(indent);
        self.line(format!("Field: {{ name: \"{}\", name_id: {}, binding_id: {}, type_: {:?} }}", field.name, field.name_id.0, field.binding_id.0, field.type_));
    }

    fn action(&mut self, stmt: &ActionStmt, indent: usize) {
        self.indent(indent);
        match stmt {
            ActionStmt::Let { name, expr, name_id, binding_id } => {
                self.line(format!("Let: {{ name: \"{}\", name_id: {}, binding_id: {} }}", name, name_id.0, binding_id.0));
                self.expr(expr, indent + 1);
            }
            ActionStmt::Expr(expr) => {
                self.line(format!("Expr:"));
                self.expr(expr, indent + 1);
            }
            ActionStmt::Do(expr) => {
                self.line(format!("Do:"));
                self.expr(expr, indent + 1);
            }
            ActionStmt::Assert(expr) => {
                self.line(format!("Assert:"));
                self.expr(expr, indent + 1);
            }
            ActionStmt::Assign { var, expr, name_id, binding_id } => {
                self.line(format!("Assign: {{ var: \"{}\", name_id: {}, binding_id: {} }}", var, name_id.0, binding_id.0));
                self.expr(expr, indent + 1);
            }
            ActionStmt::Insert { row, table_name, table_name_id, table_binding_id } => {
                self.line(format!("Insert: {{ table_name: \"{}\", table_name_id: {}, table_binding_id: {} }}", table_name, table_name_id.0, table_binding_id.0));
                self.expr(row, indent + 1);
            }
        }
    }

    fn expr(&mut self, expr: &Expr, indent: usize) {
        self.indent(indent);
        match expr {
            Expr::Literal { val } => {
                self.line(format!("Literal:"));
                self.value(val, indent + 1);
            }
            Expr::Variable { ident, name_id, binding_id } => {
                self.line(format!("Variable: {{ ident: \"{}\", name_id: {}, binding_id: {} }}", ident, name_id.0, binding_id.0));
            }
            Expr::Tuple { val } => {
                self.line(format!("Tuple:"));
                for v in val {
                    self.expr(v, indent + 1);
                }
            }
            Expr::KeyVal { key, key_id, key_binding_id, value } => {
                self.line(format!("KeyVal: {{ key: \"{}\", key_id: {}, key_binding_id: {} }}", key, key_id.0, key_binding_id.0));
                self.expr(value, indent + 1);
            }
            Expr::Unop { op, expr } => {
                self.line(format!("Unop: {{ op: {:?} }}", op));
                self.expr(expr, indent + 1);
            }
            Expr::Binop { op, expr1, expr2 } => {
                self.line(format!("Binop: {{ op: {:?} }}", op));
                self.expr(expr1, indent + 1);
                self.expr(expr2, indent + 1);
            }
            Expr::If { cond, expr1, expr2 } => {
                self.line(format!("If:"));
                self.expr(cond, indent + 1);
                self.expr(expr1, indent + 1);
                self.expr(expr2, indent + 1);
            }
            Expr::Func { params, param_ids, body } => {
                let mapped: Vec<(u32, u64)> = param_ids.iter().map(|(s, b)| (s.0, b.0)).collect();
                self.line(format!("Func: {{ params: {:?}, param_ids: {:?} }}", params, mapped));
                self.expr(body, indent + 1);
            }
            Expr::Call { func, args } => {
                self.line(format!("Call:"));
                self.expr(func, indent + 1);
                for arg in args {
                    self.expr(arg, indent + 1);
                }
            }
            Expr::Action(stmts) => {
                self.line(format!("Action:"));
                for stmt in stmts {
                    self.action(stmt, indent + 1);
                }
            }
            Expr::MemberAccess { service, service_id, service_binding_id, member, member_id, member_binding_id } => {
                self.line(format!("MemberAccess: {{ service: \"{}\", service_id: {}, service_binding_id: {}, member: \"{}\", member_id: {}, member_binding_id: {} }}", service, service_id.0, service_binding_id.0, member, member_id.0, member_binding_id.0));
            }
            Expr::Select { table_name, table_name_id, table_binding_id, column_names, column_ids, where_clause } => {
                let mapped: Vec<(u32, u64)> = column_ids.iter().map(|(s, b)| (s.0, b.0)).collect();
                self.line(format!("Select: {{ table_name: \"{}\", table_name_id: {}, table_binding_id: {}, column_names: {:?}, column_ids: {:?} }}", table_name, table_name_id.0, table_binding_id.0, column_names, mapped));
                self.expr(where_clause, indent + 1);
            }
            Expr::Table { schema, records } => {
                self.line(format!("Table:"));
                for field in schema {
                    self.field(field, indent + 1);
                }
                for record in records {
                    self.expr(record, indent + 1);
                }
            }
            Expr::Fold { table_name, table_name_id, table_binding_id, column_name, column_name_id, column_binding_id, operation, identity } => {
                self.line(format!("Fold: {{ table_name: \"{}\", table_name_id: {}, table_binding_id: {}, column_name: \"{}\", column_name_id: {}, column_binding_id: {} }}", table_name, table_name_id.0, table_binding_id.0, column_name, column_name_id.0, column_binding_id.0));
                self.expr(operation, indent + 1);
                self.expr(identity, indent + 1);
            }
        }
    }

    fn value(&mut self, val: &Value, indent: usize) {
        self.indent(indent);
        match val {
            Value::Number { val } => self.line(format!("Number: {}", val)),
            Value::Bool { val } => self.line(format!("Bool: {}", val)),
            Value::String { val } => self.line(format!("String: \"{}\"", val)),
            Value::Closure { params, param_ids, body, service_name, service_name_id, service_name_binding_id, .. } => {
                let mapped: Vec<(u32, u64)> = param_ids.iter().map(|(s, b)| (s.0, b.0)).collect();
                self.line(format!("Closure: {{ params: {:?}, param_ids: {:?}, service_name: \"{}\", service_name_id: {}, service_name_binding_id: {} }}", params, mapped, service_name, service_name_id.0, service_name_binding_id.0));
                self.expr(body, indent + 1);
            }
            Value::ActionClosure { stmts, service_name, service_name_id, service_name_binding_id, .. } => {
                self.line(format!("ActionClosure: {{ service_name: \"{}\", service_name_id: {}, service_name_binding_id: {} }}", service_name, service_name_id.0, service_name_binding_id.0));
                for stmt in stmts {
                    self.action(stmt, indent + 1);
                }
            }
        }
    }
}

// ---------------------------------------------------------------------------

#[test]
fn expression_texts_match_display_rules() {
    for e in sample_exprs() {
        assert_eq!(e.to_string(), ref_expr(&e), "{:?}", e);
    }
}

#[test]
fn expression_debug_forms_match_derived_debug() {
    for e in sample_exprs() {
        assert_eq!(e.to_debug_string(), format!("{:?}", e));
    }
}

#[test]
fn value_texts_match_display_rules() {
    for e in sample_exprs() {
        if let Expr::Literal { val } = &e {
            assert_eq!(val.to_string(), ref_value(val));
        }
    }
}

#[test]
fn action_and_decl_texts() {
    for a in sample_actions() {
        assert_eq!(a.to_string(), ref_action(&a));
    }
    for d in sample_decls() {
        assert_eq!(d.to_string(), ref_decl(&d));
    }
}

#[test]
fn operator_symbols() {
    assert_eq!(UnOp::Neg.to_string(), "-");
    assert_eq!(UnOp::Not.to_string(), "!");
    let all = [BinOp::Add, BinOp::Sub, BinOp::Mul, BinOp::Div, BinOp::Eq, BinOp::Lt, BinOp::Gt, BinOp::And, BinOp::Or];
    let texts = ["+", "-", "*", "/", "==", "<", ">", "&&", "||"];
    for (op, t) in all.iter().zip(texts.iter()) {
        assert_eq!(op.to_string(), *t);
    }
}

#[test]
fn concrete_texts() {
    assert_eq!(num(-42).to_string(), "-42");
    assert_eq!(num(i32::MIN).to_string(), "-2147483648");
    let b = Expr::Binop { op: BinOp::Add, expr1: Box::new(num(1)), expr2: Box::new(var("x", 3, 4)) };
    assert_eq!(b.to_string(), "1 + x");
    let act = Expr::Action(vec![
        ActionStmt::Let { name: "x".to_string(), expr: num(1), name_id: Symbol(1), binding_id: BindingId(2) },
        ActionStmt::Do(var("f", 0, 0)),
    ]);
    assert_eq!(act.to_string(), "Action(\"let x = 1, do f\")");
    let table = Expr::Table {
        schema: vec![],
        records: vec![Expr::Tuple { val: vec![num(1), num(2)] }, var("r", 0, 0)],
    };
    assert_eq!(table.to_string(), "[{1, 2}, {r}]");
    let clo = Value::Closure {
        params: vec!["a".to_string(), "b".to_string()],
        param_ids: vec![],
        body: Box::new(var("a", 1, 2)),
        env: vec![("x".to_string(), Value::Number { val: 1 })],
        service_name: "s".to_string(),
        service_name_id: Symbol(0),
        service_name_binding_id: BindingId(0),
    };
    assert_eq!(clo.to_string(), "fn(a,b)[[(\"x\", Number { val: 1 })]]{a}");
    let d = Decl::DefDecl { name: "y".to_string(), name_id: Symbol(3), binding_id: BindingId(4), val: num(2), is_pub: true };
    assert_eq!(d.to_string(), "pub def y = 2");
    let t = Decl::TableDecl { name: "t".to_string(), name_id: Symbol(3), binding_id: BindingId(4), fields: vec![] };
    assert_eq!(t.to_string(), "table t created");
}

#[test]
fn concrete_debug_form() {
    let e = Expr::Unop { op: UnOp::Not, expr: Box::new(var("a\"b", 1, 2)) };
    assert_eq!(
        e.to_debug_string(),
        "Unop { op: Not, expr: Variable { ident: \"a\\\"b\", name_id: Symbol(1), binding_id: BindingId(2) } }"
    );
}

#[test]
fn printed_listing_matches_printer_rules() {
    for spaces in [0usize, 1, 2, 4] {
        let printer = AstPrinter::with_spaces(spaces);
        for indent in [0usize, 3] {
            for e in sample_exprs() {
                let mut r = RefPrinter { spaces, out: String::new() };
                r.expr(&e, indent);
                assert_eq!(printer.print_expr(&e, indent), r.out);
                if let Expr::Literal { val } = &e {
                    let mut r = RefPrinter { spaces, out: String::new() };
                    r.value(val, indent);
                    assert_eq!(printer.print_value(val, indent), r.out);
                }
            }
            for a in sample_actions() {
                let mut r = RefPrinter { spaces, out: String::new() };
                r.action(&a, indent);
                assert_eq!(printer.print_action_stmt(&a, indent), r.out);
            }
            for d in sample_decls() {
                let mut r = RefPrinter { spaces, out: String::new() };
                r.decl(&d, indent);
                assert_eq!(printer.print_decl(&d, indent), r.out);
            }
            for s in sample_stmts() {
                let mut r = RefPrinter { spaces, out: String::new() };
                r.stmt(&s, indent);
                assert_eq!(printer.print_stmt(&s, indent), r.out);
            }
        }
        let prog = sample_stmts();
        let mut r = RefPrinter { spaces, out: String::new() };
        for s in &prog {
            r.stmt(s, 0);
        }
        assert_eq!(printer.print_program(&prog), r.out);
    }
}

#[test]
fn concrete_listing() {
    let printer = AstPrinter::new();
    let e = Expr::Binop { op: BinOp::Add, expr1: Box::new(num(1)), expr2: Box::new(var("x", 3, 4)) };
    assert_eq!(
        printer.print_expr(&e, 0),
        "Binop: { op: Add }\n  Literal:\n    Number: 1\n  Variable: { ident: \"x\", name_id: 3, binding_id: 4 }\n"
    );
    let f = Expr::Func {
        params: vec!["a".to_string()],
        param_ids: vec![(Symbol(1), BindingId(2)), (Symbol(3), BindingId(4))],
        body: Box::new(num(0)),
    };
    assert_eq!(
        AstPrinter::with_spaces(3).print_expr(&f, 1),
        "   Func: { params: [\"a\"], param_ids: [(1, 2), (3, 4)] }\n      Literal:\n         Number: 0\n"
    );
    assert_eq!(printer.print_program(&[]), "");
    let c = Stmt::Connect { path: "p".to_string(), addr: "a".to_string() };
    assert_eq!(printer.print_program(&[c]), "Connect: { path: \"p\", addr: \"a\" }\n");
}

#[test]
fn default_printer_uses_two_spaces() {
    let p = AstPrinter::default();
    let w = Stmt::Watch { expr: var("v", 1, 1) };
    assert_eq!(p.print_stmt(&w, 1), "  Watch:\n    Variable: { ident: \"v\", name_id: 1, binding_id: 1 }\n");
}

#[test]
fn very_deep_indent_with_zero_spaces() {
    let p = AstPrinter::with_spaces(0);
    assert_eq!(p.print_expr(&var("v", 1, 1), usize::MAX), "Variable: { ident: \"v\", name_id: 1, binding_id: 1 }\n");
}

#[test]
fn printability_check() {
    assert!(AstPrinter::new().can_print_program(&sample_stmts()));
    assert!(AstPrinter::new().can_print_program(&[]));
    let wide = AstPrinter::with_spaces(usize::MAX);
    let c = Stmt::Connect { path: "p".to_string(), addr: "a".to_string() };
    assert!(wide.can_print_program(&[c]));
    assert!(wide.can_print_program(&[Stmt::Watch { expr: var("v", 0, 0) }]));
    assert!(!wide.can_print_program(&[Stmt::Watch { expr: num(1) }]));
    let half = AstPrinter::with_spaces(usize::MAX / 2);
    assert!(half.can_print_program(&[Stmt::Watch { expr: num(1) }]));
    assert_eq!(
        half.print_program(&[Stmt::Connect { path: "p".to_string(), addr: "a".to_string() }]),
        "Connect: { path: \"p\", addr: \"a\" }\n"
    );
}

#[test]
fn clones_are_equal_trees() {
    for e in sample_exprs() {
        let c = e.clone();
        assert_eq!(c, e);
        assert_eq!(c.to_string(), e.to_string());
    }
    for a in sample_actions() {
        assert_eq!(a.clone(), a);
    }
    for d in sample_decls() {
        assert_eq!(d.clone(), d);
    }
    for s in sample_stmts() {
        assert_eq!(s.clone(), s);
    }
    let f = field("id", DataType::Number);
    assert_eq!(f.clone(), f);
}

#[test]
fn closure_environment_is_not_printed() {
    let printer = AstPrinter::with_spaces(2);
    let make = |env: Vec<(String, Value)>| Value::Closure {
        params: vec!["p".to_string()],
        param_ids: vec![(Symbol(1), BindingId(2))],
        body: Box::new(Expr::Variable { ident: "p".to_string(), name_id: Symbol(1), binding_id: BindingId(2) }),
        env,
        service_name: "svc".to_string(),
        service_name_id: Symbol(3),
        service_name_binding_id: BindingId(4),
    };
    let bare = make(vec![]);
    let full = make(vec![("k".to_string(), Value::Number { val: 9 }), ("j".to_string(), Value::Bool { val: true })]);
    assert_eq!(printer.print_value(&bare, 1), printer.print_value(&full, 1));
    let make_action = |env: Vec<(String, Value)>| Value::ActionClosure {
        stmts: vec![ActionStmt::Do(Expr::Variable { ident: "f".to_string(), name_id: Symbol(0), binding_id: BindingId(0) })],
        env,
        service_name: "svc".to_string(),
        service_name_id: Symbol(3),
        service_name_binding_id: BindingId(4),
    };
    assert_eq!(
        printer.print_value(&make_action(vec![]), 0),
        printer.print_value(&make_action(vec![("k".to_string(), Value::Number { val: 1 })]), 0)
    );
}

#[test]
fn split_program_lists_as_its_halves() {
    let printer = AstPrinter::with_spaces(3);
    let stmts = sample_stmts();
    assert_eq!(printer.print_program(&[]), "");
    for cut in 0..=stmts.len() {
        let (a, b) = stmts.split_at(cut);
        let whole = printer.print_program(&stmts);
        let halves = printer.print_program(a) + &printer.print_program(b);
        assert_eq!(whole, halves);
    }
    let each: String = stmts.iter().map(|s| printer.print_stmt(s, 0)).collect();
    assert_eq!(printer.print_program(&stmts), each);
}
