//! Per-package global variables.
use vstd::prelude::*;

verus! {

/// Named string variables; a name is bound at most once.
#[derive(Debug, PartialEq, Eq, PartialOrd, Ord, Hash)]
pub struct Variables {
    /// The bindings in the order they were first made.
    pub entries: Vec<(String, String)>,
}

/// The value bound to `key` by the first entry that names it.
pub open spec fn lookup(entries: Seq<(String, String)>, key: Seq<char>) -> Option<Seq<char>>
    decreases entries.len(),
{
    if entries.len() == 0 {
        None
    } else if entries[0].0@ == key {
        Some(entries[0].1@)
    } else {
        lookup(entries.drop_first(), key)
    }
}

proof fn lemma_lookup_set(s: Seq<(String, String)>, j: int, e: (String, String), k: Seq<char>)
    requires
        0 <= j < s.len(),
        s[j].0@ == e.0@,
        forall|i: int| 0 <= i < j ==> (#[trigger] s[i]).0@ != e.0@,
    ensures
        lookup(s.update(j, e), k) == if k == e.0@ {
            Some(e.1@)
        } else {
            lookup(s, k)
        },
    decreases j,
{
    if j == 0 {
        assert(s.update(0, e).drop_first() =~= s.drop_first());
    } else {
        assert(s.update(j, e).drop_first() =~= s.drop_first().update(j - 1, e));
        assert forall|i: int| 0 <= i < j - 1 implies (#[trigger] s.drop_first()[i]).0@ != e.0@ by {
            assert(s.drop_first()[i] == s[i + 1]);
        }
        lemma_lookup_set(s.drop_first(), j - 1, e, k);
    }
}

proof fn lemma_lookup_push(s: Seq<(String, String)>, e: (String, String), k: Seq<char>)
    requires
        forall|i: int| 0 <= i < s.len() ==> (#[trigger] s[i]).0@ != e.0@,
    ensures
        lookup(s.push(e), k) == if k == e.0@ {
            Some(e.1@)
        } else {
            lookup(s, k)
        },
    decreases s.len(),
{
    if s.len() > 0 {
        assert(s.push(e).drop_first() =~= s.drop_first().push(e));
        assert forall|i: int| 0 <= i < s.drop_first().len() implies (
        #[trigger] s.drop_first()[i]).0@ != e.0@ by {
            assert(s.drop_first()[i] == s[i + 1]);
        }
        lemma_lookup_push(s.drop_first(), e, k);
    } else {
        assert(s.push(e).drop_first() =~= s);
    }
}

impl Default for Variables {
    fn default() -> (r: Self)
        ensures
            forall|k: Seq<char>| r.spec_get(k) is None,
    {
        Variables::new()
    }
}

impl Variables {
    pub closed spec fn spec_get(&self, key: Seq<char>) -> Option<Seq<char>> {
        lookup(self.entries@, key)
    }

    /// No variables.
    pub fn new() -> (r: Self)
        ensures
            forall|k: Seq<char>| r.spec_get(k) is None,
    {
        Variables { entries: Vec::new() }
    }

    /// Binds `key` to `value`, replacing what `key` was bound to.
    pub fn insert(&mut self, key: String, value: String)
        ensures
            forall|k: Seq<char>|
                #[trigger] final(self).spec_get(k) == if k == key@ {
                    Some(value@)
                } else {
                    old(self).spec_get(k)
                },
    {
        let ghost s = self.entries@;
        match self.position(&key) {
            Some(j) => {
                let e = (key, value);
                proof {
                    assert forall|k: Seq<char>| #[trigger]
                        lookup(s.update(j as int, e), k) == if k == e.0@ {
                            Some(e.1@)
                        } else {
                            lookup(s, k)
                        } by {
                        lemma_lookup_set(s, j as int, e, k);
                    }
                }
                self.entries.set(j, e);
            },
            None => {
                let e = (key, value);
                proof {
                    assert forall|k: Seq<char>| #[trigger]
                        lookup(s.push(e), k) == if k == e.0@ {
                            Some(e.1@)
                        } else {
                            lookup(s, k)
                        } by {
                        lemma_lookup_push(s, e, k);
                    }
                }
                self.entries.push(e);
            },
        }
    }

    /// Where `key` is first bound.
    fn position(&self, key: &String) -> (r: Option<usize>)
        ensures
            r matches Some(j) ==> j < self.entries@.len() && self.entries@[j as int].0@ == key@
                && forall|i: int| 0 <= i < j ==> (#[trigger] self.entries@[i]).0@ != key@,
            r is None ==> forall|i: int|
                0 <= i < self.entries@.len() ==> (#[trigger] self.entries@[i]).0@ != key@,
    {
        let mut j: usize = 0;
        while j < self.entries.len()
            invariant
                j <= self.entries@.len(),
                forall|i: int| 0 <= i < j ==> (#[trigger] self.entries@[i]).0@ != key@,
            decreases self.entries.len() - j,
        {
            if self.entries[j].0 == *key {
                return Some(j);
            }
            j = j + 1;
        }
        None
    }

    /// The value of `key`, if it is bound.
    pub fn get(&self, key: &str) -> (r: Option<String>)
        ensures
            r matches Some(v) ==> self.spec_get(key@) == Some(v@),
            r is None ==> self.spec_get(key@) is None,
    {
        let wanted = String::from_str(key);
        let mut j: usize = 0;
        assert(self.entries@.subrange(0, self.entries@.len() as int) =~= self.entries@);
        while j < self.entries.len()
            invariant
                j <= self.entries@.len(),
                wanted@ == key@,
                lookup(self.entries@, key@) == lookup(
                    self.entries@.subrange(j as int, self.entries@.len() as int),
                    key@,
                ),
            decreases self.entries.len() - j,
        {
            let ghost rest = self.entries@.subrange(j as int, self.entries@.len() as int);
            assert(rest.drop_first() =~= self.entries@.subrange(j + 1, self.entries@.len() as int));
            assert(rest[0] == self.entries@[j as int]);
            if self.entries[j].0 == wanted {
                return Some(self.entries[j].1.clone());
            }
            j = j + 1;
        }
        None
    }
}

/// The global variables of one package; ordered by name first.
#[derive(Debug, PartialEq, Eq, PartialOrd, Ord, Hash)]
pub struct Global {
    pub name: String,
    pub variables: Variables,
}

impl Global {
    /// The value of the variable `name`, if it is bound.
    pub fn var(&self, name: &str) -> (r: Option<String>)
        ensures
            r matches Some(v) ==> self.variables.spec_get(name@) == Some(v@),
            r is None ==> self.variables.spec_get(name@) is None,
    {
        self.variables.get(name)
    }
}

} // verus!
