//! A name-keyed collection of metric cells.
//!
//! One `Registry` backs one metric kind. It is an association list from
//! metric names to cells with unique names: the get-or-create `register`
//! either finds the one existing cell for a name or appends a fresh one.
//! Entries are never removed, so a handle (an index) stays valid and keeps
//! naming the same cell for the life of the registry.

use vstd::prelude::*;

verus! {

/// No two entries carry the same name.
pub open spec fn distinct_names<V>(entries: Seq<(Seq<char>, V)>) -> bool {
    forall|i: int, j: int|
        0 <= i < j < entries.len() ==> entries[i].0 != entries[j].0
}

/// Some entry carries the name `name`.
pub open spec fn contains_name<V>(entries: Seq<(Seq<char>, V)>, name: Seq<char>) -> bool {
    exists|i: int| 0 <= i < entries.len() && entries[i].0 == name
}

/// The index of the entry carrying `name` (meaningful when `contains_name` holds
/// and the names are distinct).
pub open spec fn name_index<V>(entries: Seq<(Seq<char>, V)>, name: Seq<char>) -> int {
    choose|i: int| 0 <= i < entries.len() && entries[i].0 == name
}

/// A name-keyed collection of cells, the storage behind one metric kind.
pub struct Registry<V> {
    names: Vec<String>,
    cells: Vec<V>,
}

impl<V> View for Registry<V> {
    type V = Seq<(Seq<char>, V)>;

    closed spec fn view(&self) -> Seq<(Seq<char>, V)> {
        Seq::new(self.names@.len(), |i: int| (self.names@[i]@, self.cells@[i]))
    }
}

impl<V> Registry<V> {
    /// Every name has its cell, and no name appears twice.
    pub closed spec fn wf(&self) -> bool {
        &&& self.names@.len() == self.cells@.len()
        &&& forall|i: int, j: int|
            0 <= i < j < self.names@.len() ==> self.names@[i]@ != self.names@[j]@
    }

    /// A well-formed registry never carries two entries of one name.
    pub proof fn lemma_wf_distinct(&self)
        requires
            self.wf(),
        ensures
            distinct_names(self@),
    {
    }

    pub fn new() -> (r: Self)
        ensures
            r.wf(),
            distinct_names(r@),
            r@ == Seq::<(Seq<char>, V)>::empty(),
    {
        Registry { names: Vec::new(), cells: Vec::new() }
    }

    pub fn len(&self) -> (n: usize)
        requires
            self.wf(),
        ensures
            n == self@.len(),
    {
        self.names.len()
    }

    /// Get-or-create: return the handle of the one cell named `name`,
    /// appending a fresh cell holding `init` if none exists yet. Existing
    /// entries are never moved or changed, so handles handed out earlier
    /// keep naming the same cells.
    pub fn register(&mut self, name: &String, init: V) -> (h: usize)
        requires
            old(self).wf(),
        ensures
            final(self).wf(),
            distinct_names(final(self)@),
            (h as int) < final(self)@.len(),
            final(self)@[h as int].0 == name@,
            contains_name(old(self)@, name@) ==> final(self)@ == old(self)@,
            !contains_name(old(self)@, name@) ==> {
                &&& final(self)@ =~= old(self)@.push((name@, init))
                &&& h as int == old(self)@.len()
            },
            old(self)@.len() <= final(self)@.len(),
            forall|i: int| 0 <= i < old(self)@.len() ==> final(self)@[i] == old(self)@[i],
    {
        let n = self.names.len();
        let mut i: usize = 0;
        while i < n
            invariant
                self == old(self),
                self.wf(),
                n == self@.len(),
                i <= n,
                forall|j: int| 0 <= j < i ==> self@[j].0 != name@,
            decreases n - i,
        {
            if self.names[i] == *name {
                proof {
                    assert(self@[i as int].0 == name@);
                    assert(contains_name(self@, name@));
                }
                return i;
            }
            i += 1;
        }
        self.names.push(name.clone());
        self.cells.push(init);
        proof {
            assert(self@ =~= old(self)@.push((name@, init)));
            assert forall|i: int, j: int|
                0 <= i < j < self.names@.len() implies self.names@[i]@ != self.names@[j]@ by {
                if j == n as int {
                    assert(old(self)@[i].0 == self.names@[i]@);
                    assert(old(self)@[i].0 != name@);
                } else {
                    assert(old(self)@[i].0 == self.names@[i]@);
                    assert(old(self)@[j].0 == self.names@[j]@);
                }
            }
        }
        n
    }

    /// Read access to the cell at handle `h`.
    pub fn cell(&self, h: usize) -> (r: &V)
        requires
            self.wf(),
            h < self@.len(),
        ensures
            *r == self@[h as int].1,
    {
        &self.cells[h]
    }

    /// Mutable access to the cell at handle `h`: the entry keeps its name,
    /// and every other entry is untouched.
    pub fn cell_mut(&mut self, h: usize) -> (r: &mut V)
        requires
            old(self).wf(),
            h < old(self)@.len(),
        ensures
            *r == old(self)@[h as int].1,
            final(self).wf(),
            distinct_names(old(self)@) ==> distinct_names(final(self)@),
            final(self)@ =~= old(self)@.update(
                h as int,
                (old(self)@[h as int].0, *final(r)),
            ),
    {
        &mut self.cells[h]
    }

    /// The name of the cell at handle `h`.
    pub fn name_at(&self, h: usize) -> (r: &String)
        requires
            self.wf(),
            h < self@.len(),
        ensures
            r@ == self@[h as int].0,
    {
        &self.names[h]
    }
}

/// Idempotent identity: in a registry whose names are distinct, two handles
/// that carry the same name are the same handle. Together with the contract
/// of [`Registry::register`], every registration of one name yields a handle
/// to the one cell that the first registration created, so a mutation made
/// through any such handle is seen through all of them.
pub proof fn lemma_handle_unique<V>(entries: Seq<(Seq<char>, V)>, h1: int, h2: int)
    requires
        distinct_names(entries),
        0 <= h1 < entries.len(),
        0 <= h2 < entries.len(),
        entries[h1].0 == entries[h2].0,
    ensures
        h1 == h2,
{
}

} // verus!
