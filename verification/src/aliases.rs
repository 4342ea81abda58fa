//! The alias table: preferred candidate names for chosen queries.

use vstd::prelude::*;

verus! {

/// One alias: the query text and the candidate name it stands for.
#[derive(Clone, Debug, PartialEq, Eq)]
pub struct Alias {
    pub query: String,
    pub target: String,
}

/// A map from query text to a preferred candidate name.
///
/// The entries are kept in a vector in which no query occurs twice.
#[derive(Debug)]
pub struct AliasTable {
    entries: Vec<Alias>,
}

/// Whether some entry is for `query`.
pub open spec fn has_query(entries: Seq<Alias>, query: Seq<char>) -> bool {
    exists|i: int| 0 <= i < entries.len() && (#[trigger] entries[i]).query@ == query
}

/// The position of an entry for `query`.
pub open spec fn slot_of(entries: Seq<Alias>, query: Seq<char>) -> int {
    choose|i: int| 0 <= i < entries.len() && (#[trigger] entries[i]).query@ == query
}

/// No query occurs twice.
pub open spec fn distinct_queries(entries: Seq<Alias>) -> bool {
    forall|i: int, j: int|
        0 <= i < j < entries.len() ==> (#[trigger] entries[i]).query@ != (
        #[trigger] entries[j]).query@
}

/// The map that a sequence of entries stands for.
pub open spec fn map_of(entries: Seq<Alias>) -> Map<Seq<char>, Seq<char>> {
    Map::new(
        |query: Seq<char>| has_query(entries, query),
        |query: Seq<char>| entries[slot_of(entries, query)].target@,
    )
}

impl View for AliasTable {
    type V = Map<Seq<char>, Seq<char>>;

    closed spec fn view(&self) -> Map<Seq<char>, Seq<char>> {
        map_of(self.entries@)
    }
}

/// The position of the entry for `query`, if there is one.
fn find(entries: &Vec<Alias>, query: &str) -> (slot: Option<usize>)
    ensures
        slot matches Some(i) ==> i < entries@.len() && entries@[i as int].query@ == query@,
        slot is None ==> !has_query(entries@, query@),
{
    let wanted = query.to_owned();
    let mut i: usize = 0;
    while i < entries.len()
        invariant
            i <= entries@.len(),
            wanted@ == query@,
            forall|k: int| 0 <= k < i ==> (#[trigger] entries@[k]).query@ != query@,
        decreases entries@.len() - i,
    {
        if entries[i].query == wanted {
            return Some(i);
        }
        i = i + 1;
    }
    None
}

impl AliasTable {
    #[verifier::type_invariant]
    spec fn well_formed(&self) -> bool {
        distinct_queries(self.entries@)
    }

    /// An empty table.
    pub fn new() -> (table: AliasTable)
        ensures
            table@ == Map::<Seq<char>, Seq<char>>::empty(),
    {
        AliasTable { entries: Vec::new() }
    }

    /// The name preferred for `query`, if the table holds one. The query is
    /// looked up as it is given.
    pub fn get(&self, query: &str) -> (target: Option<&String>)
        ensures
            target matches Some(name) ==> self@.contains_key(query@) && name@ == self@[query@],
            target is None ==> !self@.contains_key(query@),
    {
        proof {
            use_type_invariant(self);
        }
        match find(&self.entries, query) {
            Some(i) => {
                assert(slot_of(self.entries@, query@) == i);
                Some(&self.entries[i].target)
            },
            None => None,
        }
    }

    /// The aliases of the table, each query once, oldest first.
    pub fn entries(&self) -> (list: &Vec<Alias>)
        ensures
            map_of(list@) == self@,
            distinct_queries(list@),
    {
        proof {
            use_type_invariant(self);
        }
        &self.entries
    }

    /// Sets the name preferred for `query`, in place of an earlier one if
    /// there was one.
    pub fn insert(&mut self, query: String, target: String)
        ensures
            final(self)@ == old(self)@.insert(query@, target@),
    {
        proof {
            use_type_invariant(&*self);
        }
        let ghost before = self.entries@;
        let mut entries: Vec<Alias> = Vec::new();
        core::mem::swap(&mut self.entries, &mut entries);
        match find(&entries, query.as_str()) {
            Some(i) => {
                entries.set(i, Alias { query, target });
            },
            None => {
                entries.push(Alias { query, target });
            },
        }
        proof {
            let after = entries@;
            assert forall|q: Seq<char>| has_query(after, q) <==> (q == query@ || has_query(before, q)) by {
                if has_query(after, q) {
                    let k = slot_of(after, q);
                    if q != query@ {
                        assert(before[k].query@ == q);
                    }
                }
                if q == query@ {
                    if has_query(before, q) {
                        let k = slot_of(before, q);
                        assert(after[k].query@ == q);
                    } else {
                        assert(after[after.len() - 1].query@ == q);
                    }
                } else if has_query(before, q) {
                    let k = slot_of(before, q);
                    assert(after[k].query@ == q);
                }
            }
            assert forall|q: Seq<char>| has_query(after, q) implies map_of(after)[q] == old(
                self,
            )@.insert(query@, target@)[q] by {
                let k = slot_of(after, q);
                if q != query@ {
                    assert(before[k].query@ == q);
                    let j = slot_of(before, q);
                    assert(after[j].query@ == q);
                    assert(j == k);
                }
            }
            assert(map_of(after) =~= map_of(before).insert(query@, target@));
        }
        core::mem::swap(&mut self.entries, &mut entries);
    }
}

impl Clone for AliasTable {
    fn clone(&self) -> (copy: AliasTable)
        ensures
            copy@ == self@,
    {
        proof {
            use_type_invariant(self);
        }
        let mut entries: Vec<Alias> = Vec::new();
        let mut i: usize = 0;
        while i < self.entries.len()
            invariant
                i <= self.entries@.len(),
                entries@.len() == i,
                forall|k: int|
                    0 <= k < i ==> (#[trigger] entries@[k]).query@ == self.entries@[k].query@
                        && entries@[k].target@ == self.entries@[k].target@,
            decreases self.entries@.len() - i,
        {
            let entry = &self.entries[i];
            entries.push(Alias { query: entry.query.clone(), target: entry.target.clone() });
            i = i + 1;
        }
        proof {
            assert forall|q: Seq<char>| has_query(entries@, q) <==> has_query(self.entries@, q) by {
                if has_query(entries@, q) {
                    let k = slot_of(entries@, q);
                    assert(self.entries@[k].query@ == q);
                }
                if has_query(self.entries@, q) {
                    let k = slot_of(self.entries@, q);
                    assert(entries@[k].query@ == q);
                }
            }
            assert forall|q: Seq<char>| has_query(entries@, q) implies map_of(entries@)[q]
                == map_of(self.entries@)[q] by {
                let k = slot_of(entries@, q);
                assert(self.entries@[k].query@ == q);
                assert(slot_of(self.entries@, q) == k);
            }
            assert(map_of(entries@) =~= map_of(self.entries@));
        }
        AliasTable { entries }
    }
}

} // verus!
