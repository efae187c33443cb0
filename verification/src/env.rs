//! Environment variables for a child process: a mapping from name to value
//! that remembers the order in which the names were first set.

use vstd::prelude::*;

verus! {

/// A mapping from variable name to value. No name occurs twice.
#[derive(Debug, PartialEq, Eq)]
pub struct EnvMap {
    entries: Vec<(String, String)>,
}

/// The names of a sequence of pairs, in order.
pub open spec fn names_of(pairs: Seq<(Seq<char>, Seq<char>)>) -> Seq<Seq<char>> {
    Seq::new(pairs.len(), |i: int| pairs[i].0)
}

impl View for EnvMap {
    type V = Seq<(Seq<char>, Seq<char>)>;

    /// The pairs of name and value, in the order the names were first set.
    closed spec fn view(&self) -> Seq<(Seq<char>, Seq<char>)> {
        self.entries.deep_view()
    }
}

impl EnvMap {
    /// The type's invariant: no name occurs twice. Every value that this
    /// module hands out is well formed.
    pub open spec fn wf(&self) -> bool {
        self.names().no_duplicates()
    }

    /// The names that are set, in the order they were first set.
    pub open spec fn names(&self) -> Seq<Seq<char>> {
        names_of(self@)
    }

    /// The empty mapping.
    pub fn new() -> (env: EnvMap)
        ensures
            env.wf(),
            env@ == Seq::<(Seq<char>, Seq<char>)>::empty(),
    {
        let env = EnvMap { entries: Vec::new() };
        assert(env.entries.deep_view() =~= Seq::<(Seq<char>, Seq<char>)>::empty());
        env
    }

    /// How many names are set.
    pub fn len(&self) -> (n: usize)
        ensures
            n == self@.len(),
    {
        self.entries.len()
    }

    /// The index at which `name` stands, or `len()` when it is not set.
    pub fn position(&self, name: &str) -> (at: usize)
        requires
            self.wf(),
        ensures
            at <= self@.len(),
            at < self@.len() ==> self.names()[at as int] == name@,
            at == self@.len() ==> !self.names().contains(name@),
            at < self@.len() <==> self.names().contains(name@),
            self.names().contains(name@) ==> at == self.names().index_of(name@),
    {
        let wanted = name.to_owned();
        let mut i: usize = 0;
        while i < self.entries.len()
            invariant
                self.wf(),
                i <= self.entries.len(),
                wanted@ == name@,
                forall|j: int| 0 <= j < i ==> (#[trigger] self.names()[j]) != name@,
            decreases self.entries.len() - i,
        {
            if self.entries[i].0 == wanted {
                proof {
                    let names = self.names();
                    assert(0 <= i < names.len() && names[i as int] == name@);
                    let k = names.index_of(name@);
                    assert(0 <= k < names.len() && names[k] == name@);
                    assert(k == i);
                }
                return i;
            }
            i += 1;
        }
        i
    }

    /// Sets `name` to `value`.
    ///
    /// A name that is already set keeps its place and gets the new value; a
    /// new name goes to the end. Returns whether the name was new.
    pub fn insert(&mut self, name: String, value: String) -> (fresh: bool)
        requires
            old(self).wf(),
        ensures
            final(self).wf(),
            fresh == !old(self).names().contains(name@),
            fresh ==> final(self)@ == old(self)@.push((name@, value@)),
            !fresh ==> final(self)@ == old(self)@.update(
                old(self).names().index_of(name@),
                (name@, value@),
            ),
    {
        let at = self.position(name.as_str());
        let ghost before = self.entries.deep_view();
        if at < self.entries.len() {
            self.entries[at] = (name, value);
            assert(self.entries.deep_view() =~= before.update(at as int, (name@, value@)));
            assert(names_of(self.entries.deep_view()) =~= names_of(before));
            false
        } else {
            self.entries.push((name, value));
            assert(self.entries.deep_view() =~= before.push((name@, value@)));
            assert(names_of(self.entries.deep_view()) =~= names_of(before).push(name@));
            true
        }
    }

    /// The value that `name` is set to, if it is set.
    pub fn get(&self, name: &str) -> (value: Option<&String>)
        requires
            self.wf(),
        ensures
            value.is_some() == self.names().contains(name@),
            value.is_some() ==> value.unwrap()@ == self@[self.names().index_of(name@)].1,
    {
        let at = self.position(name);
        if at < self.entries.len() {
            Some(&self.entries[at].1)
        } else {
            None
        }
    }

    /// The pairs of name and value, in order.
    pub fn entries(&self) -> (pairs: &Vec<(String, String)>)
        ensures
            pairs.deep_view() == self@,
    {
        &self.entries
    }
}

} // verus!
