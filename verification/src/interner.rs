//! String interning: each distinct string gets one `Symbol`, and a symbol
//! gives its string back. Symbol 0 is reserved for the empty string.
//! Strings are copied into the interner.
use vstd::prelude::*;
use crate::symbol::Symbol;

verus! {

/// The interner. `index` pairs each interned string with its number;
/// `strings[i]` is the string of symbol `i`.
pub struct Interner {
    index: Vec<(String, u32)>,
    strings: Vec<String>,
    next_id: u32,
}

impl Interner {
    /// The strings by symbol number.
    pub closed spec fn table(&self) -> Seq<Seq<char>> {
        self.strings@.map_values(|s: String| s@)
    }

    /// Whether `s` has a symbol.
    pub closed spec fn has(&self, s: Seq<char>) -> bool {
        exists|k: int| 0 <= k < self.index@.len() && #[trigger] self.index@[k].0@ == s
    }

    /// The symbol number of an interned string.
    pub closed spec fn id_of(&self, s: Seq<char>) -> u32 {
        self.index@[choose|k: int| 0 <= k < self.index@.len() && #[trigger] self.index@[k].0@ == s].1
    }

    /// The number the next new string gets.
    pub closed spec fn next(&self) -> u32 {
        self.next_id
    }

    /// The string of a symbol: the empty string for a number with no string.
    pub open spec fn text_of(&self, sym: Symbol) -> Seq<char> {
        if (sym.0 as int) < self.table().len() {
            self.table()[sym.0 as int]
        } else {
            Seq::empty()
        }
    }

    /// The interner is well formed: one string per number below `next_id`,
    /// the empty string first; every indexed string names its own slot; no
    /// string is indexed twice; the empty string is indexed as symbol 0.
    pub closed spec fn wf(&self) -> bool {
        &&& self.strings@.len() == self.next_id
        &&& self.next_id >= 1
        &&& self.strings@[0]@ == Seq::<char>::empty()
        &&& self.index@.len() >= 1
        &&& self.index@[0].0@ == Seq::<char>::empty()
        &&& self.index@[0].1 == 0
        &&& forall|k: int|
            0 <= k < self.index@.len() ==> {
                &&& (#[trigger] self.index@[k]).1 < self.next_id
                &&& self.strings@[self.index@[k].1 as int]@ == self.index@[k].0@
            }
        &&& forall|j: int, k: int|
            0 <= j < k < self.index@.len() ==> #[trigger] self.index@[j].0@ != #[trigger] self.index@[k].0@
    }

    /// What `insert(s)` does: a string that has a symbol gets it back and the
    /// interner is unchanged; a new string gets the next number, is appended
    /// to the table and indexed. Either way the symbol is a number of the
    /// table and reads back as `s`.
    pub open spec fn inserted(old: Interner, s: Seq<char>, new: Interner, sym: Symbol) -> bool {
        &&& new.wf()
        &&& if old.has(s) {
            &&& sym.0 == old.id_of(s)
            &&& new.table() == old.table()
            &&& new.next() == old.next()
            &&& forall|t: Seq<char>| #[trigger] new.has(t) == old.has(t)
            &&& forall|t: Seq<char>| old.has(t) ==> #[trigger] new.id_of(t) == old.id_of(t)
        } else {
            &&& sym.0 == old.next()
            &&& new.table() == old.table().push(s)
            &&& new.next() == old.next() + 1
            &&& forall|t: Seq<char>| #[trigger] new.has(t) == (old.has(t) || t == s)
            &&& forall|t: Seq<char>| old.has(t) ==> #[trigger] new.id_of(t) == old.id_of(t)
            &&& new.id_of(s) == sym.0
        }
        &&& (sym.0 as int) < new.table().len()
        &&& new.text_of(sym) == s
    }

    /// What `new()` returns: only the empty string, as symbol 0.
    pub open spec fn is_new(i: Interner) -> bool {
        &&& i.wf()
        &&& i.table() == seq![Seq::<char>::empty()]
        &&& i.next() == 1
        &&& forall|t: Seq<char>| #[trigger] i.has(t) == (t == Seq::<char>::empty())
    }

    /// What `with_reserve(n)` returns: symbols `0..=n` all hold the empty
    /// string, only symbol 0 is indexed, and the next new string gets `n + 1`.
    pub open spec fn is_reserved(i: Interner, n: u32) -> bool {
        &&& i.wf()
        &&& i.table() == Seq::new(n as nat + 1, |_i: int| Seq::<char>::empty())
        &&& i.next() == n + 1
        &&& forall|t: Seq<char>| #[trigger] i.has(t) == (t == Seq::<char>::empty())
    }

    /// Two interners that answer every call alike: the same strings by
    /// number, the same next number, and the same interned strings with the
    /// same symbols.
    pub open spec fn same_state(a: Interner, b: Interner) -> bool {
        &&& a.table() == b.table()
        &&& a.next() == b.next()
        &&& forall|t: Seq<char>| #[trigger] a.has(t) == b.has(t)
        &&& forall|t: Seq<char>|
            #![trigger a.id_of(t)]
            #![trigger b.id_of(t)]
            a.has(t) ==> a.id_of(t) == b.id_of(t)
    }

    /// An interner holding only the empty string, as symbol 0 (see `is_new`).
    pub fn new() -> (res: Self)
        ensures
            Self::is_new(res),
    {
        let mut index: Vec<(String, u32)> = Vec::new();
        index.push((String::new(), 0));
        let mut strings: Vec<String> = Vec::new();
        strings.push(String::new());
        let res = Interner { index, strings, next_id: 1 };
        assert(res.table() =~= seq![Seq::<char>::empty()]);
        assert forall|t: Seq<char>| #[trigger] res.has(t) == (t == Seq::<char>::empty()) by {
            if t == Seq::<char>::empty() {
                assert(res.index@[0].0@ == t);
            }
        }
        res
    }

    /// An interner with `n` reserved numbers after symbol 0 (see
    /// `is_reserved`).
    pub fn with_reserve(n: u32) -> (res: Self)
        requires
            n < u32::MAX,
        ensures
            Self::is_reserved(res, n),
    {
        let count = n + 1;
        let mut index: Vec<(String, u32)> = Vec::new();
        index.push((String::new(), 0));
        let mut strings: Vec<String> = Vec::new();
        let mut i: u32 = 0;
        while i < count
            invariant
                i <= count,
                count == n + 1,
                strings@.len() == i,
                forall|k: int| 0 <= k < i ==> (#[trigger] strings@[k])@ == Seq::<char>::empty(),
            decreases count - i,
        {
            strings.push(String::new());
            i = i + 1;
        }
        let res = Interner { index, strings, next_id: count };
        assert(res.table() =~= Seq::new(n as nat + 1, |_i: int| Seq::<char>::empty()));
        assert forall|t: Seq<char>| #[trigger] res.has(t) == (t == Seq::<char>::empty()) by {
            if t == Seq::<char>::empty() {
                assert(res.index@[0].0@ == t);
            }
        }
        res
    }

    /// The position in `index` of `s`, if it is there.
    fn find(&self, s: &String) -> (res: Option<usize>)
        requires
            self.wf(),
        ensures
            match res {
                Some(k) => k < self.index@.len() && self.index@[k as int].0@ == s@,
                None => !self.has(s@),
            },
    {
        let mut k: usize = 0;
        while k < self.index.len()
            invariant
                k <= self.index@.len(),
                forall|j: int| 0 <= j < k ==> (#[trigger] self.index@[j]).0@ != s@,
            decreases self.index@.len() - k,
        {
            if self.index[k].0 == *s {
                return Some(k);
            }
            k = k + 1;
        }
        None
    }

    /// Interns `s` and returns its symbol; a string interned before gets
    /// the symbol it had.
    pub fn insert(&mut self, s: &str) -> (sym: Symbol)
        requires
            old(self).wf(),
            old(self).has(s@) || old(self).next() < u32::MAX,
        ensures
            Self::inserted(*old(self), s@, *final(self), sym),
    {
        let key = String::from_str(s);
        match self.find(&key) {
            Some(k) => {
                let id = self.index[k].1;
                proof {
                    let c = choose|j: int| 0 <= j < self.index@.len() && #[trigger] self.index@[j].0@ == s@;
                    if c != k {
                        if c < k {
                            assert(self.index@[c].0@ != self.index@[k as int].0@);
                        } else {
                            assert(self.index@[k as int].0@ != self.index@[c].0@);
                        }
                    }
                    assert(self.strings@[id as int]@ == s@);
                }
                Symbol(id)
            },
            None => {
                let ghost old_self = *self;
                let id = self.next_id;
                let key2 = String::from_str(s);
                self.index.push((key2, id));
                self.strings.push(key);
                self.next_id = self.next_id + 1;
                proof {
                    assert(self.table() =~= old_self.table().push(s@));
                    assert forall|t: Seq<char>| #[trigger] self.has(t) == (old_self.has(t) || t == s@) by {
                        if old_self.has(t) {
                            let j = choose|j: int| 0 <= j < old_self.index@.len() && #[trigger] old_self.index@[j].0@ == t;
                            assert(self.index@[j] == old_self.index@[j]);
                        }
                        if t == s@ {
                            assert(self.index@[self.index@.len() - 1].0@ == t);
                        }
                        if self.has(t) && t != s@ {
                            let j = choose|j: int| 0 <= j < self.index@.len() && #[trigger] self.index@[j].0@ == t;
                            assert(old_self.index@[j] == self.index@[j]);
                        }
                    }
                    assert forall|t: Seq<char>| old_self.has(t) implies #[trigger] self.id_of(t) == old_self.id_of(t) by {
                        let j = choose|j: int| 0 <= j < old_self.index@.len() && #[trigger] old_self.index@[j].0@ == t;
                        let c = choose|j: int| 0 <= j < self.index@.len() && #[trigger] self.index@[j].0@ == t;
                        assert(self.index@[j] == old_self.index@[j]);
                        if c != j {
                            if c < j {
                                assert(self.index@[c].0@ != self.index@[j].0@);
                            } else {
                                assert(self.index@[j].0@ != self.index@[c].0@);
                            }
                        }
                    }
                    let last = self.index@.len() - 1;
                    assert(self.index@[last].0@ == s@);
                    let c = choose|j: int| 0 <= j < self.index@.len() && #[trigger] self.index@[j].0@ == s@;
                    if c != last {
                        assert(old_self.index@[c] == self.index@[c]);
                        assert(old_self.has(s@));
                    }
                }
                Symbol(id)
            },
        }
    }

    /// The string of `id`; the empty string when no string has that number.
    pub fn get(&self, id: Symbol) -> (res: &str)
        requires
            self.wf(),
        ensures
            res@ == self.text_of(id),
    {
        let i = id.0 as usize;
        if i < self.strings.len() {
            self.strings[i].as_str()
        } else {
            let e = "";
            proof {
                reveal_strlit("");
            }
            assert(e@ =~= Seq::<char>::empty());
            e
        }
    }

    /// The number the next new string gets.
    pub fn next_id(&self) -> (res: u32)
        ensures
            res == self.next(),
    {
        self.next_id
    }

    /// How many numbers have a string (interned or reserved).
    pub fn len(&self) -> (res: usize)
        requires
            self.wf(),
        ensures
            res == self.table().len(),
    {
        self.strings.len()
    }
}

/// Reading back what was interned: after `insert(s)` returns `sym`, the
/// string of `sym` is `s`.
pub proof fn lemma_get_after_insert(old: Interner, s: Seq<char>, new: Interner, sym: Symbol)
    requires
        old.wf(),
        Interner::inserted(old, s, new, sym),
    ensures
        new.text_of(sym) == s,
{
}

/// Interning is idempotent: interning the same string again returns the
/// same symbol and leaves the table and the next number as they were.
pub proof fn lemma_insert_idempotent(
    i0: Interner,
    s: Seq<char>,
    i1: Interner,
    r1: Symbol,
    i2: Interner,
    r2: Symbol,
)
    requires
        i0.wf(),
        Interner::inserted(i0, s, i1, r1),
        Interner::inserted(i1, s, i2, r2),
    ensures
        r2 == r1,
        i2.table() == i1.table(),
        i2.next() == i1.next(),
{
    assert(i1.has(s));
}

/// Interning never changes the string of a symbol that already had one.
pub proof fn lemma_insert_keeps_symbols(old: Interner, s: Seq<char>, new: Interner, sym: Symbol, k: Symbol)
    requires
        old.wf(),
        Interner::inserted(old, s, new, sym),
        (k.0 as int) < old.table().len(),
    ensures
        new.text_of(k) == old.text_of(k),
{
}

/// Distinct strings get distinct symbols.
pub proof fn lemma_distinct_strings_distinct_symbols(
    i0: Interner,
    a: Seq<char>,
    i1: Interner,
    ra: Symbol,
    b: Seq<char>,
    i2: Interner,
    rb: Symbol,
)
    requires
        i0.wf(),
        Interner::inserted(i0, a, i1, ra),
        Interner::inserted(i1, b, i2, rb),
        a != b,
    ensures
        ra != rb,
{
    lemma_insert_keeps_symbols(i1, b, i2, rb, ra);
}

/// The empty string is always interned, as symbol 0.
pub proof fn lemma_empty_is_symbol_zero(i: Interner)
    requires
        i.wf(),
    ensures
        i.has(Seq::empty()),
        i.id_of(Seq::empty()) == 0,
        i.text_of(Symbol(0)) == Seq::<char>::empty(),
{
    assert(i.index@[0].0@ == Seq::<char>::empty());
    let k = choose|k: int| 0 <= k < i.index@.len() && #[trigger] i.index@[k].0@ == Seq::<char>::empty();
    if k != 0 {
        assert(i.index@[0].0@ != i.index@[k].0@);
    }
}

/// What every well-formed interner holds: at least one number, the empty
/// string at number 0, the next number equal to the count of numbers, and
/// each interned string has a symbol below that count which reads back as
/// the string itself; so two different interned strings never share a
/// symbol.
pub proof fn lemma_interned_symbols(i: Interner)
    requires
        i.wf(),
    ensures
        i.table().len() >= 1,
        i.table()[0] == Seq::<char>::empty(),
        i.next() as int == i.table().len(),
        forall|t: Seq<char>|
            #[trigger] i.has(t) ==> (i.id_of(t) as int) < i.table().len() && i.text_of(Symbol(i.id_of(t)))
                == t,
        forall|t1: Seq<char>, t2: Seq<char>|
            #![trigger i.id_of(t1), i.id_of(t2)]
            i.has(t1) && i.has(t2) && t1 != t2 ==> i.id_of(t1) != i.id_of(t2),
{
    assert forall|t: Seq<char>| #[trigger] i.has(t) implies (i.id_of(t) as int) < i.table().len()
        && i.text_of(Symbol(i.id_of(t))) == t by {
        let k = choose|k: int| 0 <= k < i.index@.len() && #[trigger] i.index@[k].0@ == t;
        assert(i.strings@[i.index@[k].1 as int]@ == i.index@[k].0@);
    }
    assert forall|t1: Seq<char>, t2: Seq<char>|
        #![trigger i.id_of(t1), i.id_of(t2)]
        i.has(t1) && i.has(t2) && t1 != t2 implies i.id_of(t1) != i.id_of(t2) by {
        assert(i.text_of(Symbol(i.id_of(t1))) == t1);
        assert(i.text_of(Symbol(i.id_of(t2))) == t2);
    }
}

/// `with_reserve(0)` and `new()` build interners in the same state.
pub proof fn lemma_reserve_zero_same_as_new(a: Interner, b: Interner)
    requires
        Interner::is_new(a),
        Interner::is_reserved(b, 0),
    ensures
        Interner::same_state(a, b),
{
    assert(a.table() =~= b.table());
    lemma_empty_is_symbol_zero(a);
    lemma_empty_is_symbol_zero(b);
    assert forall|t: Seq<char>|
        #![trigger a.id_of(t)]
        #![trigger b.id_of(t)]
        a.has(t) implies a.id_of(t) == b.id_of(t) by {
        assert(t == Seq::<char>::empty());
    }
}

/// Interners in the same state stay in the same state under `insert`, and
/// both return the same symbol; so any sequence of calls gives the same
/// results on both.
pub proof fn lemma_same_state_insert(
    a: Interner,
    b: Interner,
    s: Seq<char>,
    a2: Interner,
    ra: Symbol,
    b2: Interner,
    rb: Symbol,
)
    requires
        a.wf(),
        b.wf(),
        Interner::same_state(a, b),
        Interner::inserted(a, s, a2, ra),
        Interner::inserted(b, s, b2, rb),
    ensures
        ra == rb,
        Interner::same_state(a2, b2),
{
    assert forall|t: Seq<char>|
        #![trigger a2.id_of(t)]
        #![trigger b2.id_of(t)]
        a2.has(t) implies a2.id_of(t) == b2.id_of(t) by {
        if a.has(t) {
            assert(a.id_of(t) == b.id_of(t));
        }
    }
}

/// Interners in the same state read back alike: `get`, `len` and `next_id`
/// give the same answers.
pub proof fn lemma_same_state_reads(a: Interner, b: Interner, sym: Symbol)
    requires
        Interner::same_state(a, b),
    ensures
        a.text_of(sym) == b.text_of(sym),
        a.table().len() == b.table().len(),
        a.next() == b.next(),
{
}

} // verus!
