use meerkat::symbol::Symbol;
use meerkat::types::{Param, Type};

/// Verify that `Type` formats nested function types to
/// preserve associativity
#[test]
fn test_nested_type_formatting() {
    // case 1: (int -> bool) -> string
    let ty1 = Type::Func(
        Box::new(Type::Func(Box::new(Type::Int), Box::new(Type::Bool))),
        Box::new(Type::String),
    );
    assert_eq!(ty1.to_string(), "(int -> bool) -> string");

    // case 2: int -> bool -> string (which is int -> (bool -> string))
    let ty2 = Type::Func(
        Box::new(Type::Int),
        Box::new(Type::Func(Box::new(Type::Bool), Box::new(Type::String))),
    );
    assert_eq!(ty2.to_string(), "int -> bool -> string");

    // case 3: ((int -> string) -> bool) -> unit
    let ty3 = Type::Func(
        Box::new(Type::Func(
            Box::new(Type::Func(Box::new(Type::Int), Box::new(Type::String))),
            Box::new(Type::Bool),
        )),
        Box::new(Type::Unit),
    );
    assert_eq!(ty3.to_string(), "((int -> string) -> bool) -> unit");

    // case 4: (int -> bool) -> (string -> unit)
    let ty4 = Type::Func(
        Box::new(Type::Func(Box::new(Type::Int), Box::new(Type::Bool))),
        Box::new(Type::Func(Box::new(Type::String), Box::new(Type::Unit))),
    );
    assert_eq!(ty4.to_string(), "(int -> bool) -> string -> unit");

    // case 5: () -> int
    let ty5 = Type::Func(Box::new(Type::Unit), Box::new(Type::Int));
    assert_eq!(ty5.to_string(), "() -> int");

    // case 6: (() -> int) -> bool
    let ty6 = Type::Func(
        Box::new(Type::Func(Box::new(Type::Unit), Box::new(Type::Int))),
        Box::new(Type::Bool),
    );
    assert_eq!(ty6.to_string(), "(() -> int) -> bool");

    // case 7: (unit) -> int
    let ty7 = Type::Func(Box::new(Type::Tuple(vec![Type::Unit])), Box::new(Type::Int));
    assert_eq!(ty7.to_string(), "(unit) -> int");
}

#[test]
fn primitive_and_tuple_types() {
    assert_eq!(Type::Int.to_string(), "int");
    assert_eq!(Type::String.to_string(), "string");
    assert_eq!(Type::Bool.to_string(), "bool");
    assert_eq!(Type::Unit.to_string(), "unit");
    assert_eq!(Type::Tuple(vec![]).to_string(), "()");
    assert_eq!(
        Type::Tuple(vec![Type::Int, Type::Bool, Type::Tuple(vec![Type::String])]).to_string(),
        "(int, bool, (string))"
    );
}

#[test]
fn tuple_argument_is_not_parenthesised_again() {
    let t = Type::Func(
        Box::new(Type::Tuple(vec![Type::Int, Type::Int])),
        Box::new(Type::Func(Box::new(Type::Unit), Box::new(Type::Unit))),
    );
    assert_eq!(t.to_string(), "(int, int) -> () -> unit");
}

#[test]
fn param_with_and_without_type() {
    let p = Param { name: Symbol(7), ty: Some(Type::Func(Box::new(Type::Int), Box::new(Type::Bool))) };
    assert_eq!(p.to_string(), "7: int -> bool");
    let q = Param { name: Symbol(12), ty: None };
    assert_eq!(q.to_string(), "12");
}

#[test]
fn clones_of_types_and_params() {
    let t = Type::Func(Box::new(Type::Tuple(vec![Type::Int, Type::Unit])), Box::new(Type::Bool));
    assert_eq!(t.clone(), t);
    let p = Param { name: Symbol(3), ty: Some(Type::String) };
    assert_eq!(p.clone(), p);
    let q = Param { name: Symbol(4), ty: None };
    assert_eq!(q.clone(), q);
}
