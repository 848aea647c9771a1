//! The catalog of transformations: a lookup from identifier to the tag that
//! the transformation puts into the names of its outputs.

use vstd::prelude::*;
use vstd::string::*;

verus! {

/// A named transformation, as far as the pipeline depends on it: its
/// identifier, and the tag of its output names.
pub trait VideoAction {
    /// The identifier under which the transformation is selected.
    spec fn id_spec(&self) -> Seq<char>;

    /// The tag of the transformation's output names.
    spec fn suffix_spec(&self) -> Seq<char>;

    /// The identifier under which the transformation is selected.
    fn id(&self) -> (r: &'static str)
        ensures
            r@ == self.id_spec(),
    ;

    /// The tag of the transformation's output names.
    fn suffix(&self) -> (r: &'static str)
        ensures
            r@ == self.suffix_spec(),
    ;
}

/// One registered transformation.
pub struct Entry {
    pub id: String,
    pub suffix: String,
}

/// Whether some entry of `entries` has the identifier `id`.
pub open spec fn has_id(entries: Seq<Entry>, id: Seq<char>) -> bool {
    exists|i: int| 0 <= i < entries.len() && entries[i].id@ == id
}

/// The position of an entry of `entries` with the identifier `id`.
pub open spec fn position_of(entries: Seq<Entry>, id: Seq<char>) -> int {
    choose|i: int| 0 <= i < entries.len() && entries[i].id@ == id
}

/// The lookup that `entries` stands for.
pub open spec fn lookup_of(entries: Seq<Entry>) -> Map<Seq<char>, Seq<char>> {
    Map::new(
        |id: Seq<char>| has_id(entries, id),
        |id: Seq<char>| entries[position_of(entries, id)].suffix@,
    )
}

/// Whether no identifier occurs twice in `entries`.
pub open spec fn distinct_ids(entries: Seq<Entry>) -> bool {
    forall|i: int, j: int|
        0 <= i < entries.len() && 0 <= j < entries.len() && entries[i].id@ == entries[j].id@
            ==> i == j
}

/// The catalog: a lookup from identifier to output tag.
pub struct ActionFactory {
    entries: Vec<Entry>,
}

impl View for ActionFactory {
    type V = Map<Seq<char>, Seq<char>>;

    closed spec fn view(&self) -> Map<Seq<char>, Seq<char>> {
        lookup_of(self.entries@)
    }
}

impl ActionFactory {
    /// Whether the catalog is well formed: no identifier is held twice.
    pub closed spec fn wf(&self) -> bool {
        distinct_ids(self.entries@)
    }

    /// The identifiers in the order in which `list_actions` gives them.
    pub closed spec fn ids(&self) -> Seq<Seq<char>> {
        Seq::new(self.entries@.len(), |i: int| self.entries@[i].id@)
    }

    /// The empty catalog.
    pub fn new() -> (r: Self)
        ensures
            r.wf(),
            r@ == Map::<Seq<char>, Seq<char>>::empty(),
    {
        let r = ActionFactory { entries: Vec::new() };
        assert(r@ =~= Map::<Seq<char>, Seq<char>>::empty());
        r
    }

    fn find(&self, id: &str) -> (r: Option<usize>)
        requires
            self.wf(),
        ensures
            match r {
                Some(i) => i < self.entries@.len() && self.entries@[i as int].id@ == id@,
                None => !has_id(self.entries@, id@),
            },
    {
        let key = String::from_str(id);
        let mut i: usize = 0;
        while i < self.entries.len()
            invariant
                i <= self.entries@.len(),
                key@ == id@,
                forall|j: int| 0 <= j < i ==> self.entries@[j].id@ != id@,
            decreases self.entries@.len() - i,
        {
            if self.entries[i].id == key {
                return Some(i);
            }
            i = i + 1;
        }
        None
    }

    /// The tag registered under `id`, if there is one.
    pub fn get(&self, id: &str) -> (r: Option<String>)
        requires
            self.wf(),
        ensures
            match r {
                Some(tag) => self@.contains_key(id@) && self@[id@] == tag@,
                None => !self@.contains_key(id@),
            },
    {
        match self.find(id) {
            Some(i) => {
                proof {
                    assert(has_id(self.entries@, id@));
                    assert(position_of(self.entries@, id@) == i);
                }
                Some(self.entries[i].suffix.clone())
            },
            None => None,
        }
    }

    /// Puts `action` into the catalog under its identifier. An entry that was
    /// there under the same identifier is replaced.
    pub fn register<A: VideoAction>(&mut self, action: A)
        requires
            old(self).wf(),
        ensures
            final(self).wf(),
            final(self)@ == old(self)@.insert(action.id_spec(), action.suffix_spec()),
    {
        let id = action.id();
        let suffix = action.suffix();
        self.insert(id, suffix);
    }

    /// Puts the tag `suffix` into the catalog under `id`. An entry that was
    /// there under the same identifier is replaced.
    pub fn insert(&mut self, id: &str, suffix: &str)
        requires
            old(self).wf(),
        ensures
            final(self).wf(),
            final(self)@ == old(self)@.insert(id@, suffix@),
    {
        let entry = Entry { id: String::from_str(id), suffix: String::from_str(suffix) };
        let ghost before = self.entries@;
        match self.find(id) {
            Some(i) => {
                self.entries.set(i, entry);
                proof {
                    let after = self.entries@;
                    assert forall|k: Seq<char>| has_id(after, k) == (has_id(before, k) || k
                        == id@) by {
                        if has_id(before, k) {
                            let j = position_of(before, k);
                            assert(after[j].id@ == k);
                        }
                        if k == id@ {
                            assert(after[i as int].id@ == k);
                        }
                        if has_id(after, k) {
                            let j = position_of(after, k);
                            assert(before[j].id@ == k);
                        }
                    }
                    assert forall|k: Seq<char>| has_id(after, k) implies lookup_of(after)[k]
                        == lookup_of(before).insert(id@, suffix@)[k] by {
                        let j = position_of(after, k);
                        if k != id@ {
                            assert(j != i);
                            assert(before[j].id@ == k);
                            assert(position_of(before, k) == j);
                        }
                    }
                    assert(lookup_of(after) =~= lookup_of(before).insert(id@, suffix@));
                }
            },
            None => {
                self.entries.push(entry);
                proof {
                    let after = self.entries@;
                    let n = before.len() as int;
                    assert forall|k: Seq<char>| has_id(after, k) == (has_id(before, k) || k
                        == id@) by {
                        if has_id(before, k) {
                            let j = position_of(before, k);
                            assert(after[j].id@ == k);
                        }
                        if k == id@ {
                            assert(after[n].id@ == k);
                        }
                        if has_id(after, k) {
                            let j = position_of(after, k);
                            if j < n {
                                assert(before[j].id@ == k);
                            }
                        }
                    }
                    assert forall|k: Seq<char>| has_id(after, k) implies lookup_of(after)[k]
                        == lookup_of(before).insert(id@, suffix@)[k] by {
                        let j = position_of(after, k);
                        if k != id@ {
                            assert(j < n);
                            assert(before[j].id@ == k);
                            assert(position_of(before, k) == j);
                        } else {
                            if j < n {
                                assert(before[j].id@ == k);
                            }
                        }
                    }
                    assert(lookup_of(after) =~= lookup_of(before).insert(id@, suffix@));
                }
            },
        }
    }

    /// The identifiers in the catalog, each once.
    pub fn list_actions(&self) -> (r: Vec<String>)
        requires
            self.wf(),
        ensures
            r@.len() == self.ids().len(),
            forall|i: int| 0 <= i < r@.len() ==> r@[i]@ == self.ids()[i],
            forall|id: Seq<char>| self@.contains_key(id) <==> self.ids().contains(id),
            self.ids().no_duplicates(),
    {
        let mut out: Vec<String> = Vec::new();
        let mut i: usize = 0;
        while i < self.entries.len()
            invariant
                i <= self.entries@.len(),
                out@.len() == i,
                forall|j: int| 0 <= j < i ==> out@[j]@ == self.entries@[j].id@,
            decreases self.entries@.len() - i,
        {
            out.push(self.entries[i].id.clone());
            i = i + 1;
        }
        proof {
            let ids = self.ids();
            assert forall|id: Seq<char>| self@.contains_key(id) <==> ids.contains(id) by {
                if self@.contains_key(id) {
                    let j = position_of(self.entries@, id);
                    assert(ids[j] == id);
                }
                if ids.contains(id) {
                    let j = choose|j: int| 0 <= j < ids.len() && ids[j] == id;
                    assert(self.entries@[j].id@ == id);
                }
            }
        }
        out
    }
}

} // verus!
