//! The in-memory alias store: an ordered mapping from alias names to
//! shell command strings, with unique names.

use vstd::prelude::*;

verus! {

/// One alias entry as it appears in specifications: the name and the
/// command, each as a sequence of characters.
pub type EntryView = (Seq<char>, Seq<char>);

/// The names of the entries are pairwise distinct.
pub open spec fn unique_names(s: Seq<EntryView>) -> bool {
    forall|i: int, j: int| 0 <= i < j < s.len() ==> s[i].0 != s[j].0
}

/// Some entry carries this name.
pub open spec fn has_name(s: Seq<EntryView>, name: Seq<char>) -> bool {
    exists|i: int| 0 <= i < s.len() && s[i].0 == name
}

/// The mapping described by a sequence of entries; on duplicate names a
/// later entry wins, though the store never holds duplicates.
pub open spec fn entry_map(s: Seq<EntryView>) -> Map<Seq<char>, Seq<char>>
    decreases s.len(),
{
    if s.len() == 0 {
        Map::empty()
    } else {
        entry_map(s.drop_last()).insert(s.last().0, s.last().1)
    }
}

/// The mapping of alias name to command, held as a vector of pairs in
/// insertion order.
pub struct AliasStore {
    entries: Vec<(String, String)>,
}

impl View for AliasStore {
    type V = Seq<EntryView>;

    closed spec fn view(&self) -> Seq<EntryView> {
        self.entries@.map_values(|p: (String, String)| (p.0@, p.1@))
    }
}

impl AliasStore {
    /// The store's invariant: no two entries share a name.
    pub open spec fn wf(&self) -> bool {
        unique_names(self@)
    }

    /// The store seen as a mapping from names to commands.
    pub open spec fn as_map(&self) -> Map<Seq<char>, Seq<char>> {
        entry_map(self@)
    }

    /// An empty store.
    pub fn new() -> (s: AliasStore)
        ensures
            s.wf(),
            s@ == Seq::<EntryView>::empty(),
    {
        let s = AliasStore { entries: Vec::new() };
        proof {
            assert(s@ =~= Seq::<EntryView>::empty());
        }
        s
    }

    /// How many aliases the store holds.
    pub fn len(&self) -> (n: usize)
        ensures
            n == self@.len(),
    {
        self.entries.len()
    }

    /// A store over the given pairs, which must carry distinct names.
    pub(crate) fn from_pairs(pairs: Vec<(String, String)>) -> (s: AliasStore)
        requires
            unique_names(pairs_view(pairs@)),
        ensures
            s.wf(),
            s@ == pairs_view(pairs@),
    {
        AliasStore { entries: pairs }
    }

    /// The entries as a vector of name/command pairs, in store order.
    pub(crate) fn pairs(&self) -> (r: &Vec<(String, String)>)
        ensures
            pairs_view(r@) == self@,
    {
        &self.entries
    }

    /// Inserts `name -> command` if the name is absent and reports
    /// whether it did; a present name keeps its command.
    pub fn add(&mut self, name: &String, command: &String) -> (added: bool)
        requires
            old(self).wf(),
        ensures
            final(self).wf(),
            added == !has_name(old(self)@, name@),
            added ==> final(self)@ == old(self)@.push((name@, command@)),
            !added ==> final(self)@ == old(self)@,
            final(self).as_map() == if added {
                old(self).as_map().insert(name@, command@)
            } else {
                old(self).as_map()
            },
    {
        let n = self.entries.len();
        let mut i: usize = 0;
        while i < n
            invariant
                self.wf(),
                n == self@.len(),
                *self == *old(self),
                i <= n,
                forall|j: int| 0 <= j < i ==> self@[j].0 != name@,
            decreases n - i,
        {
            let p: &(String, String) = &self.entries[i];
            if p.0.eq(name) {
                proof {
                    assert(self@[i as int].0 == name@);
                }
                return false;
            }
            i += 1;
        }
        assert(!has_name(self@, name@));
        self.entries.push((name.clone(), command.clone()));
        proof {
            assert(self@ =~= old(self)@.push((name@, command@)));
            lemma_entry_map_push(old(self)@, name@, command@);
        }
        true
    }

    /// Deletes the entry of this name if there is one and reports
    /// whether there was.
    pub fn remove(&mut self, name: &String) -> (removed: bool)
        requires
            old(self).wf(),
        ensures
            final(self).wf(),
            removed == has_name(old(self)@, name@),
            !removed ==> final(self)@ == old(self)@,
            removed ==> exists|i: int|
                0 <= i < old(self)@.len() && old(self)@[i].0 == name@ && final(self)@ == old(
                    self,
                )@.remove(i),
            final(self).as_map() == if removed {
                old(self).as_map().remove(name@)
            } else {
                old(self).as_map()
            },
    {
        let n = self.entries.len();
        let mut i: usize = 0;
        while i < n
            invariant
                self.wf(),
                n == self@.len(),
                *self == *old(self),
                i <= n,
                forall|j: int| 0 <= j < i ==> self@[j].0 != name@,
            decreases n - i,
        {
            let p: &(String, String) = &self.entries[i];
            if p.0.eq(name) {
                proof {
                    assert(self@[i as int].0 == name@);
                }
                self.entries.remove(i);
                proof {
                    assert(self@ =~= old(self)@.remove(i as int));
                    lemma_unique_remove(old(self)@, i as int);
                    lemma_entry_map_remove(old(self)@, i as int);
                }
                return true;
            }
            i += 1;
        }
        assert(!has_name(self@, name@));
        false
    }

    /// Deletes every entry.
    pub fn remove_all(&mut self)
        ensures
            final(self).wf(),
            final(self)@ == Seq::<EntryView>::empty(),
            final(self).as_map() == Map::<Seq<char>, Seq<char>>::empty(),
    {
        self.entries.clear();
        proof {
            assert(self@ =~= Seq::<EntryView>::empty());
        }
    }

    /// The command bound to this name, if any.
    pub fn get(&self, name: &String) -> (r: Option<String>)
        requires
            self.wf(),
        ensures
            match r {
                Some(c) => has_name(self@, name@) && self.as_map().contains_pair(name@, c@),
                None => !has_name(self@, name@) && !self.as_map().dom().contains(name@),
            },
    {
        let n = self.entries.len();
        let mut i: usize = 0;
        while i < n
            invariant
                self.wf(),
                n == self@.len(),
                i <= n,
                forall|j: int| 0 <= j < i ==> self@[j].0 != name@,
            decreases n - i,
        {
            let p: &(String, String) = &self.entries[i];
            if p.0.eq(name) {
                proof {
                    lemma_entry_map_at(self@, i as int);
                }
                return Some(p.1.clone());
            }
            i += 1;
        }
        proof {
            lemma_entry_map_absent(self@, name@);
        }
        None
    }
}

/// A sequence of string pairs, seen as entry views.
pub open spec fn pairs_view(v: Seq<(String, String)>) -> Seq<EntryView> {
    v.map_values(|p: (String, String)| (p.0@, p.1@))
}

/// A name that no entry carries is not in the described mapping.
pub proof fn lemma_entry_map_absent(s: Seq<EntryView>, name: Seq<char>)
    requires
        !has_name(s, name),
    ensures
        !entry_map(s).dom().contains(name),
    decreases s.len(),
{
    if s.len() > 0 {
        assert(forall|i: int| 0 <= i < s.len() ==> s[i].0 != name);
        assert(!has_name(s.drop_last(), name));
        lemma_entry_map_absent(s.drop_last(), name);
        assert(s.last().0 != name);
    }
}

/// Appending an entry inserts its pair into the described mapping.
pub proof fn lemma_entry_map_push(s: Seq<EntryView>, name: Seq<char>, command: Seq<char>)
    ensures
        entry_map(s.push((name, command))) == entry_map(s).insert(name, command),
{
    assert(s.push((name, command)).drop_last() =~= s);
    assert(s.push((name, command)).last() == (name, command));
}

/// In a store with unique names, each entry's pair is in the mapping.
pub proof fn lemma_entry_map_at(s: Seq<EntryView>, i: int)
    requires
        unique_names(s),
        0 <= i < s.len(),
    ensures
        entry_map(s).contains_pair(s[i].0, s[i].1),
    decreases s.len(),
{
    if i == s.len() - 1 {
    } else {
        lemma_entry_map_at(s.drop_last(), i);
        assert(s.drop_last()[i] == s[i]);
        assert(s.last().0 != s[i].0);
    }
}

/// Removing an entry keeps the remaining names distinct.
pub proof fn lemma_unique_remove(s: Seq<EntryView>, i: int)
    requires
        unique_names(s),
        0 <= i < s.len(),
    ensures
        unique_names(s.remove(i)),
{
    let t = s.remove(i);
    s.remove_ensures(i);
    assert forall|a: int, b: int| 0 <= a < b < t.len() implies t[a].0 != t[b].0 by {
        if a < i {
            assert(t[a] == s[a]);
        } else {
            assert(t[a] == s[a + 1]);
        }
        if b < i {
            assert(t[b] == s[b]);
        } else {
            assert(t[b] == s[b + 1]);
        }
    }
}

/// Removing the entry that carries a name removes that name from the
/// described mapping.
pub proof fn lemma_entry_map_remove(s: Seq<EntryView>, i: int)
    requires
        unique_names(s),
        0 <= i < s.len(),
    ensures
        entry_map(s.remove(i)) == entry_map(s).remove(s[i].0),
    decreases s.len(),
{
    let name = s[i].0;
    if i == s.len() - 1 {
        assert(s.remove(i) =~= s.drop_last());
        assert(!has_name(s.drop_last(), name));
        lemma_entry_map_absent(s.drop_last(), name);
        assert(entry_map(s.drop_last()) =~= entry_map(s.drop_last()).insert(name, s[i].1).remove(
            name,
        ));
    } else {
        let t = s.remove(i);
        assert(t.drop_last() =~= s.drop_last().remove(i));
        assert(t.last() == s.last());
        lemma_entry_map_remove(s.drop_last(), i);
        assert(s.drop_last()[i] == s[i]);
        assert(s.last().0 != name);
        assert(entry_map(s.drop_last()).remove(name).insert(s.last().0, s.last().1)
            =~= entry_map(s.drop_last()).insert(s.last().0, s.last().1).remove(name));
    }
}

} // verus!
