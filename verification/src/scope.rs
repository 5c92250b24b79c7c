//! Nested scopes: a stack of levels, each binding names to values. The
//! identification table of the checker and the runtime of the interpreter are
//! both built on it.
use vstd::prelude::*;
use vstd::string::*;

verus! {

/// The levels of a table, outermost first, each as a map from names.
pub type Scopes<V> = Seq<Map<Seq<char>, V>>;

/// What `name` is bound to: the binding of the innermost level that has one.
pub open spec fn lookup<V>(scopes: Scopes<V>, name: Seq<char>) -> Option<V>
    decreases scopes.len(),
{
    if scopes.len() == 0 {
        None
    } else if scopes.last().contains_key(name) {
        Some(scopes.last()[name])
    } else {
        lookup(scopes.drop_last(), name)
    }
}

/// The levels after `name` is bound to `value` in the innermost one.
pub open spec fn bind<V>(scopes: Scopes<V>, name: Seq<char>, value: V) -> Scopes<V> {
    scopes.update(scopes.len() - 1, scopes.last().insert(name, value))
}

/// A name bound in the innermost level is found with its value, and no other
/// name is found differently than before. The outer levels stay as they are.
pub proof fn lemma_lookup_bind<V>(scopes: Scopes<V>, name: Seq<char>, value: V, other: Seq<char>)
    requires
        scopes.len() > 0,
    ensures
        lookup(bind(scopes, name, value), name) == Some(value),
        other != name ==> lookup(bind(scopes, name, value), other) == lookup(scopes, other),
        bind(scopes, name, value).drop_last() == scopes.drop_last(),
        bind(scopes, name, value).len() == scopes.len(),
{
    assert(bind(scopes, name, value).drop_last() =~= scopes.drop_last());
}

/// An opened level hides nothing, and closing it brings the table back.
pub proof fn lemma_lookup_open<V>(scopes: Scopes<V>, name: Seq<char>)
    ensures
        lookup(scopes.push(Map::empty()), name) == lookup(scopes, name),
        scopes.push(Map::empty()).drop_last() == scopes,
{
    assert(scopes.push(Map::<Seq<char>, V>::empty()).drop_last() =~= scopes);
}

/// One binding of a level.
pub struct Binding<V> {
    pub name: String,
    pub value: V,
}

/// The map that the bindings of one level stand for: a later binding of a
/// name replaces an earlier one.
pub open spec fn level_map<V>(entries: Seq<Binding<V>>) -> Map<Seq<char>, V>
    decreases entries.len(),
{
    if entries.len() == 0 {
        Map::empty()
    } else {
        level_map(entries.drop_last()).insert(entries.last().name@, entries.last().value)
    }
}

proof fn lemma_level_absent<V>(entries: Seq<Binding<V>>, name: Seq<char>)
    requires
        forall|j: int| 0 <= j < entries.len() ==> entries[j].name@ != name,
    ensures
        !level_map(entries).contains_key(name),
    decreases entries.len(),
{
    if entries.len() > 0 {
        lemma_level_absent(entries.drop_last(), name);
    }
}

proof fn lemma_level_found<V>(entries: Seq<Binding<V>>, i: int)
    requires
        0 <= i < entries.len(),
        forall|j: int| i < j < entries.len() ==> entries[j].name@ != entries[i].name@,
    ensures
        level_map(entries).contains_key(entries[i].name@),
        level_map(entries)[entries[i].name@] == entries[i].value,
    decreases entries.len(),
{
    if i < entries.len() - 1 {
        lemma_level_found(entries.drop_last(), i);
    }
}

proof fn lemma_level_update<V>(entries: Seq<Binding<V>>, i: int, binding: Binding<V>)
    requires
        0 <= i < entries.len(),
        binding.name@ == entries[i].name@,
        forall|j: int| i < j < entries.len() ==> entries[j].name@ != entries[i].name@,
    ensures
        level_map(entries.update(i, binding)) == level_map(entries).insert(
            binding.name@,
            binding.value,
        ),
    decreases entries.len(),
{
    let updated = entries.update(i, binding);
    if i < entries.len() - 1 {
        lemma_level_update(entries.drop_last(), i, binding);
        assert(updated.drop_last() =~= entries.drop_last().update(i, binding));
        assert(level_map(updated) =~= level_map(entries).insert(binding.name@, binding.value));
    } else {
        assert(updated.drop_last() =~= entries.drop_last());
        assert(level_map(updated) =~= level_map(entries).insert(binding.name@, binding.value));
    }
}

/// Binds `name` to `value` in one level, in place of what it was bound to.
fn level_save<V>(level: &mut Vec<Binding<V>>, name: String, value: V)
    ensures
        level_map(final(level)@) == level_map(old(level)@).insert(name@, value),
{
    let mut i = level.len();
    while i > 0
        invariant
            *level == *old(level),
            i <= level@.len(),
            forall|j: int| i <= j < level@.len() ==> level@[j].name@ != name@,
        decreases i,
    {
        i -= 1;
        if level[i].name == name {
            proof {
                lemma_level_update(level@, i as int, Binding { name, value });
            }
            level.set(i, Binding { name, value });
            return ;
        }
    }
    level.push(Binding { name, value });
    assert(level@.drop_last() =~= old(level)@);
}

/// What `name` is bound to in one level.
fn level_get<'a, V>(level: &'a Vec<Binding<V>>, name: &String) -> (found: Option<&'a V>)
    ensures
        match found {
            Some(value) => level_map(level@).contains_key(name@) && level_map(level@)[name@]
                == *value,
            None => !level_map(level@).contains_key(name@),
        },
{
    let mut i = level.len();
    while i > 0
        invariant
            i <= level@.len(),
            forall|j: int| i <= j < level@.len() ==> level@[j].name@ != name@,
        decreases i,
    {
        i -= 1;
        if level[i].name == *name {
            proof {
                lemma_level_found(level@, i as int);
            }
            return Some(&level[i].value);
        }
    }
    proof {
        lemma_level_absent(level@, name@);
    }
    None
}

/// A stack of scope levels. The outermost level, level 0, is always there:
/// it is held apart from the levels that are opened and closed inside it.
pub struct ScopeTable<V> {
    base: Vec<Binding<V>>,
    inner: Vec<Vec<Binding<V>>>,
}

impl<V> View for ScopeTable<V> {
    type V = Scopes<V>;

    closed spec fn view(&self) -> Scopes<V> {
        Seq::new(
            self.inner@.len() + 1,
            |l: int|
                if l == 0 {
                    level_map(self.base@)
                } else {
                    level_map(self.inner@[l - 1]@)
                },
        )
    }
}

impl<V> ScopeTable<V> {
    /// Level 0 is always there.
    pub proof fn lemma_has_level_zero(&self)
        ensures
            self@.len() >= 1,
    {
    }

    /// A table with level 0 alone, and nothing bound.
    pub fn new() -> (table: Self)
        ensures
            table@ == seq![Map::<Seq<char>, V>::empty()],
    {
        let table = ScopeTable { base: Vec::new(), inner: Vec::new() };
        assert(table@ =~= seq![Map::<Seq<char>, V>::empty()]);
        table
    }

    /// The number of the innermost level.
    pub fn level(&self) -> (level: usize)
        ensures
            level == self@.len() - 1,
    {
        self.inner.len()
    }

    /// Binds `name` to `value` in the innermost level, in place of what it was
    /// bound to there.
    pub fn save(&mut self, name: &str, value: V)
        ensures
            final(self)@ == bind(old(self)@, name@, value),
    {
        let key = String::from_str(name);
        let depth = self.inner.len();
        if depth == 0 {
            level_save(&mut self.base, key, value);
        } else {
            level_save(&mut self.inner[depth - 1], key, value);
        }
        assert(self@ =~= bind(old(self)@, name@, value));
    }

    /// What `name` is bound to, looking from the innermost level outward.
    pub fn get(&self, name: &str) -> (found: Option<&V>)
        ensures
            match found {
                Some(value) => lookup(self@, name@) == Some(*value),
                None => lookup(self@, name@) is None,
            },
    {
        let key = String::from_str(name);
        let mut l = self.inner.len();
        assert(self@.take(l as int + 1) =~= self@);
        while l > 0
            invariant
                l <= self.inner@.len(),
                key@ == name@,
                lookup(self@, name@) == lookup(self@.take(l as int + 1), name@),
            decreases l,
        {
            l -= 1;
            let found = level_get(&self.inner[l], &key);
            proof {
                let upto = self@.take(l as int + 2);
                assert(upto.len() == l + 2);
                assert(upto.last() == level_map(self.inner@[l as int]@));
                assert(upto.drop_last() =~= self@.take(l as int + 1));
            }
            if found.is_some() {
                return found;
            }
        }
        let found = level_get(&self.base, &key);
        proof {
            let upto = self@.take(1);
            assert(upto.len() == 1);
            assert(upto.last() == level_map(self.base@));
            assert(lookup(upto.drop_last(), name@) is None);
        }
        found
    }

    /// Opens a level inside the innermost one, with nothing bound in it.
    pub fn open(&mut self)
        ensures
            final(self)@ == old(self)@.push(Map::empty()),
    {
        self.inner.push(Vec::new());
        assert(self@ =~= old(self)@.push(Map::empty()));
    }

    /// Closes the innermost level and drops what was bound in it.
    pub fn close(&mut self)
        requires
            old(self)@.len() > 1,
        ensures
            final(self)@ == old(self)@.drop_last(),
    {
        self.inner.pop();
        assert(self@ =~= old(self)@.drop_last());
    }
}

} // verus!
