//! The environment handed to child processes: variable names with their values.

use vstd::prelude::*;

verus! {

/// No name stands twice in the list.
pub open spec fn names_distinct(s: Seq<(String, String)>) -> bool {
    forall|i: int, j: int| 0 <= i < j < s.len() ==> (#[trigger] s[i]).0@ != (#[trigger] s[j]).0@
}

/// An entry of the list has this name.
pub open spec fn has_name(s: Seq<(String, String)>, name: Seq<char>) -> bool {
    exists|i: int| 0 <= i < s.len() && (#[trigger] s[i]).0@ == name
}

/// The place of a name in the list.
pub open spec fn place_of(s: Seq<(String, String)>, name: Seq<char>) -> int {
    choose|i: int| 0 <= i < s.len() && (#[trigger] s[i]).0@ == name
}

/// The mapping that a list of name and value pairs stands for.
pub open spec fn mapping_of(s: Seq<(String, String)>) -> Map<Seq<char>, Seq<char>> {
    Map::new(|name: Seq<char>| has_name(s, name), |name: Seq<char>| s[place_of(s, name)].1@)
}

/// In a list of distinct names, the place of a name is where it stands.
pub proof fn lemma_place_of(s: Seq<(String, String)>, name: Seq<char>, i: int)
    requires
        names_distinct(s),
        0 <= i < s.len(),
        s[i].0@ == name,
    ensures
        has_name(s, name),
        place_of(s, name) == i,
        mapping_of(s).dom().contains(name),
        mapping_of(s)[name] == s[i].1@,
{
    let p = place_of(s, name);
    if p < i {
        assert(s[p].0@ != s[i].0@);
    } else if i < p {
        assert(s[i].0@ != s[p].0@);
    }
}

/// Adding a new name at the end adds it to the mapping.
pub proof fn lemma_mapping_push(s: Seq<(String, String)>, entry: (String, String))
    requires
        names_distinct(s),
        !has_name(s, entry.0@),
    ensures
        names_distinct(s.push(entry)),
        mapping_of(s.push(entry)) == mapping_of(s).insert(entry.0@, entry.1@),
{
    let t = s.push(entry);
    assert forall|i: int, j: int| 0 <= i < j < t.len() implies (#[trigger] t[i]).0@ != (
    #[trigger] t[j]).0@ by {
        assert(t[i] == s[i]);
        if j < s.len() {
            assert(t[j] == s[j]);
        }
    }
    assert forall|name: Seq<char>| #[trigger]
        mapping_of(t).dom().contains(name) == mapping_of(s).insert(
            entry.0@,
            entry.1@,
        ).dom().contains(name) by {
        if name == entry.0@ {
            assert(t[s.len() as int].0@ == name);
        } else if has_name(s, name) {
            let i = place_of(s, name);
            assert(t[i] == s[i]);
        } else if has_name(t, name) {
            let i = place_of(t, name);
            assert(t[i] == s[i]);
        }
    }
    assert forall|name: Seq<char>| #[trigger] mapping_of(t).dom().contains(name) implies mapping_of(
        t,
    )[name] == mapping_of(s).insert(entry.0@, entry.1@)[name] by {
        let i = place_of(t, name);
        if name == entry.0@ {
            lemma_place_of(t, name, s.len() as int);
        } else {
            assert(t[i] == s[i]);
            lemma_place_of(s, name, i);
        }
    }
    assert(mapping_of(t) =~= mapping_of(s).insert(entry.0@, entry.1@));
}

/// Replacing the entry of a name gives the name its new value.
pub proof fn lemma_mapping_update(s: Seq<(String, String)>, at: int, entry: (String, String))
    requires
        names_distinct(s),
        0 <= at < s.len(),
        s[at].0@ == entry.0@,
    ensures
        names_distinct(s.update(at, entry)),
        mapping_of(s.update(at, entry)) == mapping_of(s).insert(entry.0@, entry.1@),
{
    let t = s.update(at, entry);
    assert forall|i: int, j: int| 0 <= i < j < t.len() implies (#[trigger] t[i]).0@ != (
    #[trigger] t[j]).0@ by {
        assert(t[i].0@ == s[i].0@);
        assert(t[j].0@ == s[j].0@);
    }
    assert forall|name: Seq<char>| #[trigger]
        mapping_of(t).dom().contains(name) == mapping_of(s).insert(
            entry.0@,
            entry.1@,
        ).dom().contains(name) by {
        if name == entry.0@ {
            assert(t[at].0@ == name);
        } else if has_name(s, name) {
            let i = place_of(s, name);
            assert(t[i].0@ == s[i].0@);
        } else if has_name(t, name) {
            let i = place_of(t, name);
            assert(t[i].0@ == s[i].0@);
        }
    }
    assert forall|name: Seq<char>| #[trigger] mapping_of(t).dom().contains(name) implies mapping_of(
        t,
    )[name] == mapping_of(s).insert(entry.0@, entry.1@)[name] by {
        let i = place_of(t, name);
        if name == entry.0@ {
            lemma_place_of(t, name, at);
        } else {
            assert(t[i].0@ == s[i].0@);
            assert(t[i] == s[i]);
            lemma_place_of(s, name, i);
        }
    }
    assert(mapping_of(t) =~= mapping_of(s).insert(entry.0@, entry.1@));
}

/// A set of environment variables. Each name has one value; setting a name
/// again replaces its value.
pub struct EnvSet {
    entries: Vec<(String, String)>,
}

impl View for EnvSet {
    type V = Map<Seq<char>, Seq<char>>;

    closed spec fn view(&self) -> Map<Seq<char>, Seq<char>> {
        mapping_of(self.entries@)
    }
}

impl EnvSet {
    #[verifier::type_invariant]
    spec fn distinct(self) -> bool {
        names_distinct(self.entries@)
    }

    /// The set without any variable.
    pub fn new() -> (envs: EnvSet)
        ensures
            envs@ == Map::<Seq<char>, Seq<char>>::empty(),
    {
        let envs = EnvSet { entries: Vec::new() };
        assert(envs@ =~= Map::<Seq<char>, Seq<char>>::empty());
        envs
    }

    /// Where `name` stands in the list, or the list's length.
    fn find(&self, name: &String) -> (at: usize)
        ensures
            at <= self.entries@.len(),
            at < self.entries@.len() ==> self.entries@[at as int].0@ == name@,
            at == self.entries@.len() ==> !has_name(self.entries@, name@),
    {
        let mut i: usize = 0;
        while i < self.entries.len()
            invariant
                i <= self.entries@.len(),
                forall|j: int| 0 <= j < i ==> (#[trigger] self.entries@[j]).0@ != name@,
            decreases self.entries@.len() - i,
        {
            if self.entries[i].0 == *name {
                return i;
            }
            i = i + 1;
        }
        i
    }

    /// Gives `name` the value `value`, whether or not it had one.
    pub fn insert(&mut self, name: String, value: String)
        ensures
            final(self)@ == old(self)@.insert(name@, value@),
    {
        proof {
            use_type_invariant(&*self);
        }
        let at = self.find(&name);
        let mut entries: Vec<(String, String)> = Vec::new();
        core::mem::swap(&mut self.entries, &mut entries);
        if at < entries.len() {
            proof {
                lemma_mapping_update(entries@, at as int, (name, value));
            }
            entries.set(at, (name, value));
        } else {
            proof {
                lemma_mapping_push(entries@, (name, value));
            }
            entries.push((name, value));
        }
        core::mem::swap(&mut self.entries, &mut entries);
    }

    /// Gives `name` the value `value`, both copied from string slices.
    pub fn set(&mut self, name: &str, value: &str)
        ensures
            final(self)@ == old(self)@.insert(name@, value@),
    {
        self.insert(name.to_owned(), value.to_owned());
    }

    /// The value of `name`, where it has one.
    pub fn get(&self, name: &str) -> (value: Option<String>)
        ensures
            match value {
                Some(v) => self@.dom().contains(name@) && self@[name@] == v@,
                None => !self@.dom().contains(name@),
            },
    {
        proof {
            use_type_invariant(self);
        }
        let key = name.to_owned();
        let at = self.find(&key);
        if at < self.entries.len() {
            proof {
                lemma_place_of(self.entries@, name@, at as int);
            }
            Some(self.entries[at].1.clone())
        } else {
            None
        }
    }

    /// Whether `name` has a value.
    pub fn contains(&self, name: &str) -> (found: bool)
        ensures
            found == self@.dom().contains(name@),
    {
        proof {
            use_type_invariant(self);
        }
        let key = name.to_owned();
        let at = self.find(&key);
        proof {
            if at < self.entries@.len() {
                lemma_place_of(self.entries@, name@, at as int);
            }
        }
        at < self.entries.len()
    }

    /// The variables as a list of name and value pairs, each name once.
    pub fn to_vec(&self) -> (list: Vec<(String, String)>)
        ensures
            names_distinct(list@),
            mapping_of(list@) == self@,
    {
        proof {
            use_type_invariant(self);
        }
        let mut list: Vec<(String, String)> = Vec::new();
        let mut i: usize = 0;
        while i < self.entries.len()
            invariant
                i <= self.entries@.len(),
                list@ == self.entries@.take(i as int),
            decreases self.entries@.len() - i,
        {
            let name = self.entries[i].0.clone();
            let value = self.entries[i].1.clone();
            list.push((name, value));
            assert(self.entries@.take(i + 1) == self.entries@.take(i as int).push(
                self.entries@[i as int],
            ));
            i = i + 1;
        }
        assert(self.entries@.take(i as int) == self.entries@);
        list
    }
}

impl Clone for EnvSet {
    fn clone(&self) -> (copy: EnvSet)
        ensures
            copy@ == self@,
    {
        EnvSet { entries: self.to_vec() }
    }
}

} // verus!
