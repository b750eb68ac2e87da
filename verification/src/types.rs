//! Type system representations
//!
//! The type representation used during parsing and type checking of type
//! annotations.
use vstd::prelude::*;
use crate::symbol::Symbol;
use crate::text::{ends_with, join, nat_text};

verus! {

/// A type in the Meerkat language: primitives, tuples and function
/// signatures.
///
/// `Clone` is written out in `cloning.rs`, with a contract that the copy is
/// the same tree.
#[derive(Debug, PartialEq, Eq, Hash)]
pub enum Type {
    Int,
    String,
    Bool,
    Unit,
    Tuple(Vec<Type>),
    Func(Box<Type>, Box<Type>),
}

/// A function parameter: its name and optional type annotation.
///
/// `Clone` is written out in `cloning.rs`, with a contract that the copy is
/// the same tree.
#[derive(Debug, PartialEq, Eq, Hash)]
pub struct Param {
    pub name: Symbol,
    pub ty: Option<Type>,
}

/// The text of a type. Function arrows associate to the right, so a
/// function type on the left of an arrow is put in parentheses; a unit
/// argument is written `()`; tuples list their members between
/// parentheses.
pub open spec fn type_text(t: Type) -> Seq<char>
    decreases t,
{
    match t {
        Type::Int => "int"@,
        Type::String => "string"@,
        Type::Bool => "bool"@,
        Type::Unit => "unit"@,
        Type::Tuple(ts) => "("@ + types_text(ts@) + ")"@,
        Type::Func(t1, t2) => if (*t1) is Func {
            "("@ + type_text(*t1) + ") -> "@ + type_text(*t2)
        } else if (*t1) is Unit {
            "() -> "@ + type_text(*t2)
        } else {
            type_text(*t1) + " -> "@ + type_text(*t2)
        },
    }
}

/// The texts of the types, separated by `, `.
pub open spec fn types_text(s: Seq<Type>) -> Seq<char>
    decreases s,
{
    if s.len() == 0 {
        Seq::empty()
    } else if s.len() == 1 {
        type_text(s.last())
    } else {
        types_text(s.drop_last()) + ", "@ + type_text(s.last())
    }
}

/// The text of a parameter: its symbol number, then `: ` and the type when
/// it has one.
pub open spec fn param_text(p: Param) -> Seq<char> {
    match p.ty {
        Some(t) => nat_text(p.name.0 as nat) + ": "@ + type_text(t),
        None => nat_text(p.name.0 as nat),
    }
}

fn write_types(out: &mut String, v: &Vec<Type>)
    ensures
        final(out)@ == old(out)@ + types_text(v@),
    decreases v, 0nat,
{
    let ghost start = out@;
    let mut i: usize = 0;
    while i < v.len()
        invariant
            i <= v.len(),
            out@ == start + types_text(v@.take(i as int)),
        decreases v.len() - i,
    {
        if i > 0 {
            out.append(", ");
        }
        write_type(out, &v[i]);
        proof {
            let s = v@.take(i + 1);
            assert(s.drop_last() =~= v@.take(i as int));
            assert(out@ =~= start + types_text(s));
        }
        i = i + 1;
    }
    assert(v@.take(v.len() as int) =~= v@);
}

fn write_type(out: &mut String, t: &Type)
    ensures
        final(out)@ == old(out)@ + type_text(*t),
    decreases t, 1nat,
{
    let ghost start = out@;
    match t {
        Type::Int => out.append("int"),
        Type::String => out.append("string"),
        Type::Bool => out.append("bool"),
        Type::Unit => out.append("unit"),
        Type::Tuple(ts) => {
            out.append("(");
            write_types(out, ts);
            out.append(")");
        },
        Type::Func(t1, t2) => {
            let is_func = match &**t1 {
                Type::Func(_, _) => true,
                Type::Int | Type::String | Type::Bool | Type::Unit | Type::Tuple(_) => false,
            };
            if is_func {
                out.append("(");
                write_type(out, &**t1);
                out.append(") -> ");
                write_type(out, &**t2);
            } else if matches!(&**t1, Type::Unit) {
                out.append("() -> ");
                write_type(out, &**t2);
            } else {
                write_type(out, &**t1);
                out.append(" -> ");
                write_type(out, &**t2);
            }
        },
    }
    assert(out@ =~= start + type_text(*t));
}

impl Type {
    /// The type's text (see `type_text`).
    pub fn to_string(&self) -> (res: String)
        ensures
            res@ == type_text(*self),
    {
        let mut res = String::new();
        write_type(&mut res, self);
        assert(res@ =~= type_text(*self));
        res
    }
}

impl Param {
    /// The parameter's text (see `param_text`).
    pub fn to_string(&self) -> (res: String)
        ensures
            res@ == param_text(*self),
    {
        let mut res = String::new();
        crate::text::push_u64(&mut res, self.name.0 as u64);
        if let Some(ty) = &self.ty {
            res.append(": ");
            write_type(&mut res, ty);
        }
        assert(res@ =~= param_text(*self));
        res
    }
}

/// The texts of types separated by `, ` are the general joining of the
/// texts, one per type, in order.
pub proof fn lemma_types_text_join(s: Seq<Type>)
    ensures
        types_text(s) == join(s.map_values(|t: Type| type_text(t)), ", "@),
    decreases s.len(),
{
    let m = s.map_values(|t: Type| type_text(t));
    if s.len() >= 2 {
        lemma_types_text_join(s.drop_last());
        assert(m.drop_last() =~= s.drop_last().map_values(|t: Type| type_text(t)));
    }
}

/// The text of a function type ends with ` -> ` and the full text of its
/// result type, whatever the argument type; a tuple type is its members'
/// texts, in order, separated by `, ` and between parentheses; the four
/// plain types are spelled out.
pub proof fn lemma_type_texts(t1: Box<Type>, t2: Box<Type>, ts: Vec<Type>)
    ensures
        ends_with(type_text(Type::Func(t1, t2)), " -> "@ + type_text(*t2)),
        type_text(Type::Tuple(ts)) == "("@ + join(ts@.map_values(|t: Type| type_text(t)), ", "@) + ")"@,
        type_text(Type::Int) == seq!['i', 'n', 't'],
        type_text(Type::String) == seq!['s', 't', 'r', 'i', 'n', 'g'],
        type_text(Type::Bool) == seq!['b', 'o', 'o', 'l'],
        type_text(Type::Unit) == seq!['u', 'n', 'i', 't'],
{
    lemma_types_text_join(ts@);
    reveal_strlit("int");
    reveal_strlit("string");
    reveal_strlit("bool");
    reveal_strlit("unit");
    assert(type_text(Type::Int) =~= seq!['i', 'n', 't']);
    assert(type_text(Type::String) =~= seq!['s', 't', 'r', 'i', 'n', 'g']);
    assert(type_text(Type::Bool) =~= seq!['b', 'o', 'o', 'l']);
    assert(type_text(Type::Unit) =~= seq!['u', 'n', 'i', 't']);
    let whole = type_text(Type::Func(t1, t2));
    let tail = " -> "@ + type_text(*t2);
    let head = if (*t1) is Func {
        "("@ + type_text(*t1) + ")"@
    } else if (*t1) is Unit {
        "()"@
    } else {
        type_text(*t1)
    };
    reveal_strlit(") -> ");
    reveal_strlit(" -> ");
    reveal_strlit("() -> ");
    reveal_strlit(")");
    reveal_strlit("()");
    assert(whole =~= head + tail);
    assert(whole.skip(whole.len() - tail.len()) =~= tail);
}

} // verus!
