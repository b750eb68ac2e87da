use meerkat::ast::{ActionStmt, Expr, Stmt, Value};
use meerkat::node::{already_loaded_message, Node};

fn prog() -> Vec<Stmt> {
    vec![Stmt::Watch { expr: Expr::Literal { val: Value::Number { val: 1 } } }]
}

#[test]
fn new_node_is_empty() {
    let n = Node::new();
    assert!(n.programs.is_empty());
    assert!(Node::default().programs.is_empty());
    assert!(!n.is_loaded("a.mkt"));
}

#[test]
fn loading_adds_program() {
    let mut n = Node::new();
    assert_eq!(n.load_program("a.mkt", prog()), Ok(()));
    assert_eq!(n.programs.len(), 1);
    assert_eq!(n.programs[0].path, "a.mkt");
    assert_eq!(n.programs[0].ast, prog());
    assert!(n.is_loaded("a.mkt"));
    assert_eq!(n.load_program("b.mkt", vec![]), Ok(()));
    assert_eq!(n.programs.len(), 2);
    assert_eq!(n.programs[1].path, "b.mkt");
}

#[test]
fn loading_same_path_twice_is_refused() {
    let mut n = Node::new();
    n.load_program("a.mkt", prog()).unwrap();
    let again = n.load_program("a.mkt", vec![Stmt::ActionStmt(ActionStmt::Do(Expr::Tuple { val: vec![] }))]);
    assert_eq!(again, Err("Program at path 'a.mkt' is already loaded".to_string()));
    assert_eq!(n.programs.len(), 1);
    assert_eq!(n.programs[0].ast, prog());
}

#[test]
fn already_loaded_message_names_path() {
    assert_eq!(already_loaded_message("x/y.mkt"), "Program at path 'x/y.mkt' is already loaded");
}

#[test]
fn second_load_of_a_path_changes_nothing() {
    let mut n = Node::new();
    assert!(n.load_program("p.mkt", vec![]).is_ok());
    assert!(n.load_program("q.mkt", prog()).is_ok());
    let before: Vec<String> = n.programs.iter().map(|p| p.path.clone()).collect();
    assert_eq!(n.load_program("p.mkt", prog()), Err(already_loaded_message("p.mkt")));
    let after: Vec<String> = n.programs.iter().map(|p| p.path.clone()).collect();
    assert_eq!(before, after);
    assert!(n.programs[0].ast.is_empty());
}

#[test]
fn programs_clone_deeply() {
    let mut n = Node::new();
    n.load_program("a.mkt", prog()).unwrap();
    let p = n.programs[0].clone();
    assert_eq!(p.path, "a.mkt");
    assert_eq!(p.ast, prog());
}
