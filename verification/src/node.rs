//! A node holds the programs it has loaded, each under the path it was
//! loaded from. A path is loaded at most once.
use vstd::prelude::*;
use crate::ast::Stmt;

verus! {

/// A loaded program: where it came from and its statements.
///
/// `Clone` is written out in `cloning.rs`, with a contract that the copy is
/// the same tree.
#[derive(Debug)]
pub struct Program {
    pub path: String,
    pub ast: Vec<Stmt>,
}

/// The programs a node has loaded, in loading order.
pub struct Node {
    pub programs: Vec<Program>,
}

/// The message of the error for a path that is already loaded.
pub open spec fn already_loaded_text(path: Seq<char>) -> Seq<char> {
    "Program at path '"@ + path + "' is already loaded"@
}

/// `already_loaded_text(path)` as a string.
pub fn already_loaded_message(path: &str) -> (res: String)
    ensures
        res@ == already_loaded_text(path@),
{
    let mut res = String::new();
    res.append("Program at path '");
    res.append(path);
    res.append("' is already loaded");
    assert(res@ =~= already_loaded_text(path@));
    res
}

impl Node {
    /// Whether a program was loaded from `path`.
    pub open spec fn loaded(&self, path: Seq<char>) -> bool {
        exists|i: int| 0 <= i < self.programs@.len() && (#[trigger] self.programs@[i]).path@ == path
    }

    /// No two programs were loaded from the same path.
    pub open spec fn paths_distinct(&self) -> bool {
        forall|i: int, j: int|
            0 <= i < j < self.programs@.len() ==> (#[trigger] self.programs@[i]).path@
                != (#[trigger] self.programs@[j]).path@
    }

    /// What `load_program(path, ast)` does: a path that is already loaded
    /// is refused with an error naming it and the programs stay as they
    /// were; any other path is appended with its statements. Either way the
    /// path is loaded afterwards, and no path is loaded twice if none was
    /// before.
    pub open spec fn loads(old: Node, path: Seq<char>, ast: Vec<Stmt>, new: Node, res: Result<(), String>) -> bool {
        &&& old.loaded(path) ==> {
            &&& res matches Err(m) && m@ == already_loaded_text(path)
            &&& new.programs@ == old.programs@
        }
        &&& !old.loaded(path) ==> {
            &&& res is Ok
            &&& new.programs@.len() == old.programs@.len() + 1
            &&& new.programs@.drop_last() == old.programs@
            &&& new.programs@.last().path@ == path
            &&& new.programs@.last().ast == ast
        }
        &&& new.loaded(path)
        &&& old.paths_distinct() ==> new.paths_distinct()
    }

    /// A node with no programs.
    pub fn new() -> (res: Self)
        ensures
            res.programs@.len() == 0,
            res.paths_distinct(),
    {
        Node { programs: Vec::new() }
    }

    /// Whether a program was loaded from `path`.
    pub fn is_loaded(&self, path: &str) -> (res: bool)
        ensures
            res == self.loaded(path@),
    {
        let key = String::from_str(path);
        let mut i: usize = 0;
        while i < self.programs.len()
            invariant
                i <= self.programs@.len(),
                key@ == path@,
                forall|j: int| 0 <= j < i ==> (#[trigger] self.programs@[j]).path@ != path@,
            decreases self.programs@.len() - i,
        {
            if self.programs[i].path == key {
                return true;
            }
            i = i + 1;
        }
        false
    }

    /// Adds the program parsed from `path`. A path that is already loaded
    /// is refused with an error that names it, and the node is left as it
    /// was.
    pub fn load_program(&mut self, path: &str, ast: Vec<Stmt>) -> (res: Result<(), String>)
        ensures
            Self::loads(*old(self), path@, ast, *final(self), res),
    {
        if self.is_loaded(path) {
            return Err(already_loaded_message(path));
        }
        let ghost before = self.programs@;
        self.programs.push(Program { path: String::from_str(path), ast });
        assert(self.programs@.drop_last() =~= before);
        assert(self.programs@[self.programs@.len() - 1].path@ == path@);
        Ok(())
    }
}

impl Default for Node {
    fn default() -> (res: Self)
        ensures
            res.programs@.len() == 0,
    {
        Self::new()
    }
}

/// A path is loaded at most once: after a load of `path`, loading `path`
/// again is refused and changes nothing.
pub proof fn lemma_second_load_refused(
    n0: Node,
    path: Seq<char>,
    a1: Vec<Stmt>,
    n1: Node,
    r1: Result<(), String>,
    a2: Vec<Stmt>,
    n2: Node,
    r2: Result<(), String>,
)
    requires
        Node::loads(n0, path, a1, n1, r1),
        Node::loads(n1, path, a2, n2, r2),
    ensures
        r2 matches Err(m) && m@ == already_loaded_text(path),
        n2.programs@ == n1.programs@,
{
}

/// The error for an already loaded path quotes the path between single
/// quotes, so different paths give different messages.
pub proof fn lemma_already_loaded_text(p: Seq<char>, q: Seq<char>)
    ensures
        already_loaded_text(p) == "Program at path '"@ + p + "' is already loaded"@,
        already_loaded_text(p) == already_loaded_text(q) ==> p == q,
{
    crate::text::lemma_frame_injective("Program at path '"@, p, q, "' is already loaded"@);
}

} // verus!
