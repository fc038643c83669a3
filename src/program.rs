//! The registry that maps item ids back to declared names, and the scoped
//! binding of the program that rendering consults.

use std::collections::HashMap;
use vstd::prelude::*;

use crate::ir::ItemId;

verus! {

broadcast use vstd::std_specs::hash::group_hash_axioms;

/// What a program knows: the declared name of each registered item index.
pub type Names = Map<usize, Seq<char>>;

/// A program's declared names, looked up by item id.
pub struct Program {
    names: HashMap<usize, String>,
}

impl Program {
    /// The declared name of each registered item index.
    pub closed spec fn names(&self) -> Names {
        self.names@.map_values(|s: String| s@)
    }

    /// A program that knows no item.
    pub fn new() -> (r: Program)
        ensures
            r.names() == Map::<usize, Seq<char>>::empty(),
    {
        let r = Program { names: HashMap::new() };
        assert(r.names() =~= Map::<usize, Seq<char>>::empty());
        r
    }

    /// Records `name` as the declared name of `id`, replacing any earlier one.
    pub fn register(&mut self, id: ItemId, name: String)
        ensures
            final(self).names() == old(self).names().insert(id.index, name@),
    {
        self.names.insert(id.index, name);
        assert(final(self).names() =~= old(self).names().insert(id.index, name@));
    }

    /// The declared name of `id`, if this program knows it.
    pub fn name_of(&self, id: ItemId) -> (r: Option<&String>)
        ensures
            match r {
                Some(s) => self.names().contains_key(id.index) && s@ == self.names()[id.index],
                None => !self.names().contains_key(id.index),
            },
    {
        self.names.get(&id.index)
    }
}

/// The names visible through an optional program: none when no program is
/// active.
pub open spec fn names_in(prog: Option<&Program>) -> Names {
    match prog {
        Some(p) => p.names(),
        None => Map::empty(),
    }
}

/// The scoped "current program" binding: installs nest, and removing the
/// innermost one exposes the one installed before it again.
pub struct ProgramStack {
    stack: Vec<Program>,
}

impl ProgramStack {
    /// The names of the installed programs, outermost first.
    pub closed spec fn scopes(&self) -> Seq<Names> {
        self.stack@.map_values(|p: Program| p.names())
    }

    /// A binding with no program installed.
    pub fn new() -> (r: ProgramStack)
        ensures
            r.scopes() == Seq::<Names>::empty(),
    {
        let r = ProgramStack { stack: Vec::new() };
        assert(r.scopes() =~= Seq::<Names>::empty());
        r
    }

    /// Makes `prog` the active program until it is uninstalled.
    pub fn install(&mut self, prog: Program)
        ensures
            final(self).scopes() == old(self).scopes().push(prog.names()),
    {
        self.stack.push(prog);
        assert(final(self).scopes() =~= old(self).scopes().push(prog.names()));
    }

    /// Removes the innermost installed program and returns it; the one
    /// installed before it becomes active again.
    pub fn uninstall(&mut self) -> (r: Option<Program>)
        ensures
            old(self).scopes().len() == 0 ==> r.is_none() && final(self).scopes() == old(self).scopes(),
            old(self).scopes().len() > 0 ==> r.is_some() && r->0.names() == old(self).scopes().last()
                && final(self).scopes() == old(self).scopes().drop_last(),
    {
        let r = self.stack.pop();
        assert(final(self).scopes() =~= if old(self).scopes().len() == 0 {
            old(self).scopes()
        } else {
            old(self).scopes().drop_last()
        });
        r
    }

    /// The active program: the innermost installed one, if any.
    pub fn current(&self) -> (r: Option<&Program>)
        ensures
            r.is_some() == active(self.scopes()).is_some(),
            r.is_some() ==> names_in(r) == active(self.scopes())->0,
    {
        if self.stack.len() == 0 {
            None
        } else {
            Some(&self.stack[self.stack.len() - 1])
        }
    }
}

/// The names of the active program of a binding whose installed programs are
/// `scopes`, outermost first.
pub open spec fn active(scopes: Seq<Names>) -> Option<Names> {
    if scopes.len() == 0 {
        None
    } else {
        Some(scopes.last())
    }
}

} // verus!
