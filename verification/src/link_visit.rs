//! The visit recorder: an append-only log of link resolutions and the
//! derived visit count per link.

use vstd::prelude::*;

use crate::clock::now_timestamp;
use crate::errors::LinkError;

verus! {

/// One visit event: which link was resolved, and when (seconds since the
/// Unix epoch). Visits are never updated or deleted.
#[derive(Clone, Copy, PartialEq, Eq, Structural, Debug)]
pub struct LinkVisit {
    pub link_id: i32,
    pub ts: i64,
}

/// How many visits of `visits` belong to `link_id`.
pub open spec fn spec_visit_count(visits: Seq<LinkVisit>, link_id: i32) -> nat
    decreases visits.len(),
{
    if visits.len() == 0 {
        0
    } else {
        spec_visit_count(visits.drop_last(), link_id) + if visits.last().link_id == link_id {
            1nat
        } else {
            0nat
        }
    }
}

/// Appending a visit never decreases any count, and raises the visited
/// link's count by exactly one.
pub proof fn lemma_visit_count_monotone(visits: Seq<LinkVisit>, v: LinkVisit, link_id: i32)
    ensures
        spec_visit_count(visits.push(v), link_id) >= spec_visit_count(visits, link_id),
        v.link_id == link_id ==> spec_visit_count(visits.push(v), link_id) == spec_visit_count(
            visits,
            link_id,
        ) + 1,
        v.link_id != link_id ==> spec_visit_count(visits.push(v), link_id) == spec_visit_count(
            visits,
            link_id,
        ),
{
    assert(visits.push(v).drop_last() =~= visits);
    assert(visits.push(v).last() == v);
}

/// The append-only store of visit events. The availability switch stands
/// for the reachability of the backing store: while it is off, recording
/// and counting fail with `StorageUnavailable` and nothing is written.
pub struct VisitRecorder {
    visits: Vec<LinkVisit>,
    available: bool,
}

impl View for VisitRecorder {
    type V = Seq<LinkVisit>;

    closed spec fn view(&self) -> Seq<LinkVisit> {
        self.visits@
    }
}

impl VisitRecorder {
    /// Whether the backing store is reachable.
    pub closed spec fn is_available(self) -> bool {
        self.available
    }

    /// An empty, reachable log.
    pub fn new() -> (s: Self)
        ensures
            s@ == Seq::<LinkVisit>::empty(),
            s.is_available(),
    {
        VisitRecorder { visits: Vec::new(), available: true }
    }

    /// Simulate or repair a storage outage; the log is untouched.
    pub fn set_available(&mut self, available: bool)
        ensures
            final(self)@ == old(self)@,
            final(self).is_available() == available,
    {
        self.available = available;
    }

    /// Append one visit event for `link_id` with the current time.
    /// Exactly one row is written on success; nothing is written on
    /// failure. The id is not validated here: referential integrity is
    /// the caller's composition with the link store.
    pub fn mark_visit(&mut self, link_id: i32) -> (r: Result<LinkVisit, LinkError>)
        ensures
            final(self).is_available() == old(self).is_available(),
            !old(self).is_available() ==> r == Err::<LinkVisit, LinkError>(
                LinkError::StorageUnavailable,
            ) && final(self)@ == old(self)@,
            old(self).is_available() ==> r is Ok && r->Ok_0.link_id == link_id && final(self)@
                == old(self)@.push(r->Ok_0),
    {
        if !self.available {
            return Err(LinkError::StorageUnavailable);
        }
        let visit = LinkVisit { link_id, ts: now_timestamp() };
        self.visits.push(visit);
        Ok(visit)
    }

    /// The total number of visits recorded for `link_id`; zero when none
    /// exist. Absence of visits is a valid zero count, never an error;
    /// the count only fails while the store is unreachable.
    pub fn count_for_link_id(&self, link_id: i32) -> (r: Result<u64, LinkError>)
        ensures
            !self.is_available() ==> r == Err::<u64, LinkError>(LinkError::StorageUnavailable),
            self.is_available() ==> r == Ok::<u64, LinkError>(
                spec_visit_count(self@, link_id) as u64,
            ),
    {
        if !self.available {
            return Err(LinkError::StorageUnavailable);
        }
        let mut count: u64 = 0;
        let mut i: usize = 0;
        proof {
            assert(self.visits@.take(0) =~= Seq::<LinkVisit>::empty());
        }
        while i < self.visits.len()
            invariant
                i <= self.visits@.len(),
                self.is_available(),
                count == spec_visit_count(self.visits@.take(i as int), link_id),
                count <= i,
            decreases self.visits@.len() - i,
        {
            proof {
                assert(self.visits@.take(i as int + 1).drop_last() =~= self.visits@.take(i as int));
                assert(self.visits@.take(i as int + 1).last() == self.visits@[i as int]);
            }
            if self.visits[i].link_id == link_id {
                count = count + 1;
            }
            i = i + 1;
        }
        proof {
            assert(self.visits@.take(self.visits@.len() as int) =~= self.visits@);
        }
        Ok(count)
    }
}

} // verus!
