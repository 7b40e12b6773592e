//! The registry of in-flight requests: ids that were accepted and not yet
//! settled. An id is accepted at most once while it is in flight, is settled
//! (or cancelled by the remote) exactly once, and leaves the registry then.
use vstd::prelude::*;
use vstd::string::StringExecFns;

verus! {

/// The ids currently in flight. No id occurs twice.
#[derive(Debug)]
pub struct InFlightTable {
    pub ids: Vec<String>,
}

impl InFlightTable {
    /// The ids held, as character sequences, in acceptance order.
    pub open spec fn ids_view(self) -> Seq<Seq<char>> {
        self.ids@.map_values(|x: String| x@)
    }

    /// An id is in flight.
    pub open spec fn contains_id(self, id: Seq<char>) -> bool {
        exists|i: int| 0 <= i < self.ids_view().len() && self.ids_view()[i] == id
    }

    /// No id occurs twice.
    pub open spec fn wf(self) -> bool {
        forall|i: int, j: int|
            0 <= i < j < self.ids_view().len() ==> self.ids_view()[i] != self.ids_view()[j]
    }

    /// An empty registry.
    pub fn new() -> (r: InFlightTable)
        ensures
            r.ids_view().len() == 0,
            r.wf(),
    {
        InFlightTable { ids: Vec::new() }
    }

    /// How many requests are in flight.
    pub fn len(&self) -> (n: usize)
        ensures
            n == self.ids_view().len(),
    {
        self.ids.len()
    }

    /// Whether the given id is in flight.
    pub fn contains(&self, id: &str) -> (r: bool)
        ensures
            r == self.contains_id(id@),
    {
        let n = self.ids.len();
        let mut i: usize = 0;
        while i < n
            invariant
                n == self.ids@.len(),
                i <= n,
                forall|k: int| 0 <= k < i ==> self.ids_view()[k] != id@,
            decreases n - i,
        {
            let needle = String::from_str(id);
            if self.ids[i] == needle {
                assert(self.ids_view()[i as int] == id@);
                return true;
            }
            i = i + 1;
        }
        false
    }

    /// Accept an id: record it unless the same id is already in flight.
    /// Returns whether it was fresh.
    pub fn accept(&mut self, id: &str) -> (fresh: bool)
        requires
            old(self).wf(),
        ensures
            final(self).wf(),
            fresh <==> !old(self).contains_id(id@),
            fresh ==> final(self).ids_view() == old(self).ids_view().push(id@),
            !fresh ==> final(self).ids_view() == old(self).ids_view(),
            final(self).contains_id(id@),
    {
        if self.contains(id) {
            return false;
        }
        let ghost pre = self.ids_view();
        self.ids.push(String::from_str(id));
        proof {
            assert(self.ids_view() =~= pre.push(id@));
            assert(self.ids_view()[pre.len() as int] == id@);
        }
        true
    }

    /// Settle an id: remove it, whether it finished or the remote cancelled
    /// it. Returns whether it was in flight.
    pub fn settle(&mut self, id: &str) -> (present: bool)
        requires
            old(self).wf(),
        ensures
            final(self).wf(),
            present <==> old(self).contains_id(id@),
            !final(self).contains_id(id@),
            !present ==> final(self).ids_view() == old(self).ids_view(),
            present ==> exists|i: int|
                0 <= i < old(self).ids_view().len() && old(self).ids_view()[i] == id@
                    && final(self).ids_view() == old(self).ids_view().remove(i),
            present ==> final(self).ids_view().len() == old(self).ids_view().len() - 1,
    {
        let n = self.ids.len();
        let mut i: usize = 0;
        while i < n
            invariant
                self.ids@ == old(self).ids@,
                n == self.ids@.len(),
                i <= n,
                self.wf(),
                forall|k: int| 0 <= k < i ==> self.ids_view()[k] != id@,
            decreases n - i,
        {
            let needle = String::from_str(id);
            if self.ids[i] == needle {
                let ghost pre = self.ids_view();
                assert(pre[i as int] == id@);
                assert(old(self).ids_view()[i as int] == id@);
                assert(old(self).contains_id(id@));
                let _removed = self.ids.remove(i);
                proof {
                    assert(self.ids_view() =~= pre.remove(i as int));
                    assert(self.ids_view() == old(self).ids_view().remove(i as int));
                    assert forall|k: int| 0 <= k < self.ids_view().len() implies self.ids_view()[k]
                        != id@ by {
                        if k < i {
                            assert(self.ids_view()[k] == pre[k]);
                        } else {
                            assert(self.ids_view()[k] == pre[k + 1]);
                        }
                    }
                }
                return true;
            }
            i = i + 1;
        }
        false
    }
}

} // verus!
