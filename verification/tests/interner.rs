use meerkat::interner::Interner;
use meerkat::symbol::Symbol;

#[test]
fn test_new_interner_has_empty_string_at_zero() {
    let interner = Interner::new();
    assert_eq!(interner.get(Symbol(0)), "");
    assert_eq!(interner.next_id(), 1);
}

#[test]
fn test_basic_insert_and_get() {
    let mut interner = Interner::new();
    let sym = interner.insert("hello");

    assert_eq!(sym, Symbol(1));
    assert_eq!(interner.get(sym), "hello");
}

#[test]
fn test_deduplication() {
    let mut interner = Interner::new();
    let sym1 = interner.insert("rust");
    let sym2 = interner.insert("rust");

    assert_eq!(sym1, sym2, "Redundant strings must return the same Symbol");
    assert_eq!(interner.len(), 2, "Vector should only contain empty string and 'rust'");
}

#[test]
fn test_with_reserve_gaps() {
    // Reserve 5 slots (IDs 1, 2, 3, 4, 5)
    let mut interner = Interner::with_reserve(5);

    assert_eq!(interner.next_id(), 6);
    assert_eq!(interner.len(), 6);

    // Symbol 3 should exist but be an empty string placeholder
    assert_eq!(interner.get(Symbol(3)), "");

    // New inserts should happen AFTER the reserved range
    let sym = interner.insert("after_reserve");
    assert_eq!(sym, Symbol(6));
    assert_eq!(interner.get(Symbol(6)), "after_reserve");
}

#[test]
fn test_out_of_bounds_safety() {
    let interner = Interner::new();
    // Index 99 doesn't exist, should return empty string sentinel
    assert_eq!(interner.get(Symbol(99)), "");
}

#[test]
fn test_multiple_unique_inserts() {
    let mut interner = Interner::new();
    let s1 = interner.insert("a");
    let s2 = interner.insert("b");
    let s3 = interner.insert("c");

    assert_eq!(interner.get(s1), "a");
    assert_eq!(interner.get(s2), "b");
    assert_eq!(interner.get(s3), "c");
    assert_ne!(s1, s2);
}

#[test]
fn empty_string_is_symbol_zero() {
    let mut interner = Interner::new();
    interner.insert("x");
    assert_eq!(interner.insert(""), Symbol(0));
    assert_eq!(interner.len(), 2);
}

#[test]
fn empty_string_in_reserved_interner_is_symbol_zero() {
    let mut interner = Interner::with_reserve(3);
    assert_eq!(interner.insert(""), Symbol(0));
    assert_eq!(interner.next_id(), 4);
    assert_eq!(interner.len(), 4);
}

#[test]
fn reinsert_keeps_table_and_next_id() {
    let mut interner = Interner::new();
    let a = interner.insert("alpha");
    let b = interner.insert("beta");
    let next = interner.next_id();
    assert_eq!(interner.insert("alpha"), a);
    assert_eq!(interner.insert("beta"), b);
    assert_eq!(interner.next_id(), next);
    assert_eq!(interner.len(), 3);
}

#[test]
fn insert_keeps_earlier_symbols() {
    let mut interner = Interner::new();
    let a = interner.insert("one");
    interner.insert("two");
    interner.insert("three");
    assert_eq!(interner.get(a), "one");
    assert_eq!(interner.get(Symbol(0)), "");
}

#[test]
fn unicode_strings_round_trip() {
    let mut interner = Interner::new();
    let s = interner.insert("größe ✓");
    assert_eq!(interner.get(s), "größe ✓");
    assert_eq!(interner.insert("größe ✓"), s);
}

#[test]
fn with_reserve_zero_is_like_new() {
    let mut interner = Interner::with_reserve(0);
    assert_eq!(interner.next_id(), 1);
    assert_eq!(interner.insert("q"), Symbol(1));
}

#[test]
fn reserve_zero_and_new_answer_every_call_alike() {
    let mut a = Interner::new();
    let mut b = Interner::with_reserve(0);
    for s in ["x", "", "y", "x", "zz", "", "y", "w"] {
        assert_eq!(a.insert(s), b.insert(s));
        assert_eq!(a.next_id(), b.next_id());
        assert_eq!(a.len(), b.len());
    }
    for k in 0..8u32 {
        assert_eq!(a.get(Symbol(k)), b.get(Symbol(k)));
    }
}

#[test]
fn interned_strings_have_distinct_readable_symbols() {
    let mut interner = Interner::with_reserve(3);
    let words = ["", "a", "b", "ab", "ba", "a", ""];
    let syms: Vec<Symbol> = words.iter().map(|w| interner.insert(w)).collect();
    for (i, w) in words.iter().enumerate() {
        assert!((syms[i].0 as usize) < interner.len());
        assert_eq!(interner.get(syms[i]), *w);
        for (j, v) in words.iter().enumerate() {
            assert_eq!(syms[i] == syms[j], w == v);
        }
    }
    assert_eq!(syms[0], Symbol(0));
    assert_eq!(syms[1], Symbol(4));
}
