//! The connectivity prober's scheduling discipline: one probe per profile,
//! never more than ten in flight at once, and exactly one recorded result
//! per launched probe. The probes themselves - building a client and
//! fetching a version string - run outside; they draw their names from
//! this batch and hand each outcome back exactly once.

use vstd::prelude::*;

use vstd::multiset::Multiset;

use crate::events::{KtxEvent, KubeContextStatus};

verus! {

/// The cap on simultaneously in-flight probes.
pub const MAX_IN_FLIGHT: usize = 10;

/// The names of a sequence of profiles, in order.
pub open spec fn name_views(s: Seq<String>) -> Seq<Seq<char>> {
    s.map_values(|n: String| n@)
}

/// One probe batch: the names not yet launched, in order; the names in
/// flight; and the names whose result has been recorded, in completion
/// order.
pub struct ProbeBatch {
    pub pending: Vec<String>,
    pub in_flight: Vec<String>,
    pub completed: Vec<String>,
}

impl ProbeBatch {
    /// The scheduling discipline: never more than the cap in flight.
    pub open spec fn wf(self) -> bool {
        self.in_flight@.len() <= MAX_IN_FLIGHT
    }

    /// Every profile of the batch, wherever it stands, as a multiset of
    /// names: launching and completing only move names between the three
    /// places.
    pub open spec fn all_names(self) -> Multiset<Seq<char>> {
        name_views(self.pending@).to_multiset().add(
            name_views(self.in_flight@).to_multiset(),
        ).add(name_views(self.completed@).to_multiset())
    }

    /// A fresh batch for these profiles: all pending, none launched, none
    /// completed.
    pub fn new(profiles: Vec<String>) -> (r: ProbeBatch)
        ensures
            r.wf(),
            r.pending@ == profiles@,
            r.in_flight@.len() == 0,
            r.completed@.len() == 0,
            r.all_names() == name_views(profiles@).to_multiset(),
    {
        let r = ProbeBatch { pending: profiles, in_flight: Vec::new(), completed: Vec::new() };
        proof {
            broadcast use vstd::seq_lib::group_to_multiset_ensures;

            assert(name_views(r.in_flight@) =~= Seq::<Seq<char>>::empty());
            assert(name_views(r.completed@) =~= Seq::<Seq<char>>::empty());
            assert(Seq::<Seq<char>>::empty().to_multiset().len() == 0);
            assert(r.all_names() =~= name_views(r.pending@).to_multiset());
        }
        r
    }

    /// Whether another probe may be launched now: something is pending and
    /// the cap leaves room.
    pub fn can_launch(&self) -> (r: bool)
        ensures
            r == (self.pending@.len() > 0 && self.in_flight@.len() < MAX_IN_FLIGHT),
    {
        self.pending.len() > 0 && self.in_flight.len() < MAX_IN_FLIGHT
    }

    /// Launch the next pending probe: its name moves to the in-flight set
    /// and is returned for the probe task. The cap is respected by
    /// construction: launching demands room.
    pub fn launch_next(&mut self) -> (name: String)
        requires
            old(self).wf(),
            old(self).pending@.len() > 0,
            old(self).in_flight@.len() < MAX_IN_FLIGHT,
        ensures
            final(self).wf(),
            name == old(self).pending@.first(),
            final(self).pending@ == old(self).pending@.drop_first(),
            final(self).in_flight@ == old(self).in_flight@.push(name),
            final(self).completed@ == old(self).completed@,
            final(self).all_names() == old(self).all_names(),
    {
        let ghost p0 = self.pending@;
        let ghost f0 = self.in_flight@;
        let name = self.pending.remove(0);
        let launched = name.clone();
        self.in_flight.push(name);
        proof {
            broadcast use vstd::seq_lib::group_to_multiset_ensures;

            assert(self.pending@ =~= p0.drop_first());
            assert(name_views(p0.drop_first()) =~= name_views(p0).remove(0));
            assert(name_views(p0).remove(0).to_multiset() =~= name_views(p0).to_multiset().remove(
                name_views(p0)[0],
            ));
            assert(name_views(f0.push(launched)) =~= name_views(f0).push(launched@));
            assert(name_views(f0).push(launched@).to_multiset() =~= name_views(
                f0,
            ).to_multiset().insert(launched@));
            assert(name_views(p0)[0] == launched@);
            assert(name_views(p0).to_multiset().count(launched@) > 0);
            assert(final(self).all_names() =~= old(self).all_names());
        }
        launched
    }

    /// Record the single result of one in-flight probe: its name moves to
    /// the completed set, and the event carrying the result is handed back
    /// for the bus. Which of several same-named entries leaves is
    /// unobservable: the contract speaks of the names as a multiset.
    pub fn complete(&mut self, name: String, status: KubeContextStatus) -> (evt: KtxEvent)
        requires
            old(self).wf(),
            name_views(old(self).in_flight@).contains(name@),
        ensures
            final(self).wf(),
            evt == KtxEvent::SetConnectivityStatus(name, status),
            final(self).pending@ == old(self).pending@,
            final(self).completed@ == old(self).completed@.push(name),
            name_views(final(self).in_flight@).to_multiset() == name_views(
                old(self).in_flight@,
            ).to_multiset().remove(name@),
            final(self).in_flight@.len() == old(self).in_flight@.len() - 1,
            final(self).all_names() == old(self).all_names(),
    {
        let evt = KtxEvent::SetConnectivityStatus(name.clone(), status.duplicate());
        let n = self.in_flight.len();
        let ghost f0 = self.in_flight@;
        let ghost c0 = self.completed@;
        let mut i: usize = 0;
        let mut found: usize = n;
        while i < n
            invariant
                n == self.in_flight.len(),
                self.in_flight@ == f0,
                i <= n,
                found == n || (found < i && f0[found as int]@ == name@),
                found == n ==> forall|k: int| 0 <= k < i ==> f0[k]@ != name@,
            decreases n - i,
        {
            if found == n && crate::text::str_eq(self.in_flight[i].as_str(), name.as_str()) {
                found = i;
            }
            i += 1;
        }
        proof {
            if found == n {
                assert forall|k: int| 0 <= k < name_views(f0).len() implies name_views(f0)[k]
                    != name@ by {
                    assert(f0[k]@ != name@);
                };
                assert(!name_views(f0).contains(name@));
                assert(false);
            }
        }
        let _removed = self.in_flight.remove(found);
        self.completed.push(name);
        proof {
            broadcast use vstd::seq_lib::group_to_multiset_ensures;

            assert(name_views(f0.remove(found as int)) =~= name_views(f0).remove(found as int));
            assert(name_views(f0).remove(found as int).to_multiset() =~= name_views(
                f0,
            ).to_multiset().remove(name_views(f0)[found as int]));
            assert(name_views(f0)[found as int] == name@);
            let pushed = final(self).completed@.last();
            assert(name_views(c0.push(pushed)) =~= name_views(c0).push(pushed@));
            assert(name_views(c0).push(pushed@).to_multiset() =~= name_views(
                c0,
            ).to_multiset().insert(pushed@));
            assert(name_views(f0).to_multiset().count(name@) > 0);
            assert(final(self).all_names() =~= old(self).all_names());
        }
        evt
    }

    /// Whether every probe of the batch has been launched and has
    /// reported.
    pub fn is_drained(&self) -> (r: bool)
        ensures
            r == (self.pending@.len() == 0 && self.in_flight@.len() == 0),
    {
        self.pending.len() == 0 && self.in_flight.len() == 0
    }
}

/// A drained batch has recorded exactly one result for every profile it
/// was created for: the completed names are the batch's names as a
/// multiset, nothing more and nothing less.
pub proof fn lemma_drained_batch_complete(b: ProbeBatch)
    requires
        b.pending@.len() == 0,
        b.in_flight@.len() == 0,
    ensures
        name_views(b.completed@).to_multiset() == b.all_names(),
{
    broadcast use vstd::seq_lib::group_to_multiset_ensures;

    assert(name_views(b.pending@) =~= Seq::<Seq<char>>::empty());
    assert(name_views(b.in_flight@) =~= Seq::<Seq<char>>::empty());
    assert(Seq::<Seq<char>>::empty().to_multiset().len() == 0);
    assert(name_views(b.completed@).to_multiset() =~= b.all_names());
}

} // verus!
