//! The identification table: what each name stands for, by scope level.
use crate::front::ast::Decl;
use crate::scope::{bind, lookup, ScopeTable, Scopes};
use vstd::prelude::*;

verus! {

/// The checker's table of declarations. Level 0 holds the standard
/// environment; a name is looked up from the innermost level outward.
pub struct IdentificationTable {
    pub table: ScopeTable<Decl>,
}

impl View for IdentificationTable {
    type V = Scopes<Decl>;

    open spec fn view(&self) -> Scopes<Decl> {
        self.table@
    }
}

impl IdentificationTable {
    /// A table with level 0 alone, and nothing declared.
    pub fn new() -> (table: Self)
        ensures
            table@ == seq![Map::<Seq<char>, Decl>::empty()],
    {
        IdentificationTable { table: ScopeTable::new() }
    }

    /// The number of the innermost level.
    pub fn level(&self) -> (level: usize)
        ensures
            level == self@.len() - 1,
    {
        self.table.level()
    }

    /// Declares `id` as `attr` in the innermost level, in place of what it
    /// stood for there.
    pub fn save_attr(&mut self, id: &str, attr: Decl)
        ensures
            final(self)@ == bind(old(self)@, id@, attr),
    {
        self.table.save(id, attr);
    }

    /// What `search_id` stands for, or `None` where no level declares it.
    pub fn get_attr(&self, search_id: &str) -> (found: Option<&Decl>)
        ensures
            match found {
                Some(attr) => lookup(self@, search_id@) == Some(*attr),
                None => lookup(self@, search_id@) is None,
            },
    {
        self.table.get(search_id)
    }

    /// Opens a level inside the innermost one, with nothing declared in it.
    pub fn open_scope(&mut self)
        ensures
            final(self)@ == old(self)@.push(Map::empty()),
    {
        self.table.open();
    }

    /// Closes the innermost level and drops what was declared in it.
    pub fn close_scope(&mut self)
        requires
            old(self)@.len() > 1,
        ensures
            final(self)@ == old(self)@.drop_last(),
    {
        self.table.close();
    }
}

} // verus!
