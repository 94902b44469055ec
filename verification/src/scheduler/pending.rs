//! The requests of a cycle that wait for their answer.

use vstd::prelude::*;

verus! {

/// The requests of one cycle and how far they were answered, as
/// mathematics.
pub struct PendingView {
    /// The parameters asked for and not yet answered, in the order of the
    /// requests.
    pub outstanding: Seq<u8>,
    /// How many requests the cycle sent.
    pub expected: nat,
    /// How many of them were answered.
    pub received: nat,
    /// When the cycle stops waiting.
    pub deadline: nat,
}

/// The requests of one cycle that wait for their answer, with the count of
/// those answered and the time at which the waiting ends.
#[derive(Debug)]
pub struct PendingRequestSet {
    outstanding: Vec<u8>,
    expected: usize,
    received: usize,
    deadline: u64,
}

impl View for PendingRequestSet {
    type V = PendingView;

    closed spec fn view(&self) -> PendingView {
        PendingView {
            outstanding: self.outstanding@,
            expected: self.expected as nat,
            received: self.received as nat,
            deadline: self.deadline as nat,
        }
    }
}

impl PendingRequestSet {
    /// Every request is either answered or outstanding.
    pub open spec fn wf(&self) -> bool {
        self@.received + self@.outstanding.len() == self@.expected
    }

    /// The set for a cycle that sent `issued` and waits until `deadline`.
    pub fn new(issued: Vec<u8>, deadline: u64) -> (pending: PendingRequestSet)
        ensures
            pending@.outstanding == issued@,
            pending@.expected == issued@.len(),
            pending@.received == 0,
            pending@.deadline == deadline,
            pending.wf(),
    {
        let expected: usize = issued.len();
        PendingRequestSet { outstanding: issued, expected, received: 0, deadline }
    }

    /// Takes note of an answer for `id`. It counts when a request for `id`
    /// is outstanding; that request, the earliest if there are several, is
    /// then no longer outstanding. Any other answer changes nothing.
    pub fn record(&mut self, id: u8) -> (counted: bool)
        requires
            old(self).wf(),
        ensures
            final(self).wf(),
            counted == old(self)@.outstanding.contains(id),
            final(self)@.outstanding == old(self)@.outstanding.remove_value(id),
            final(self)@.received == old(self)@.received + if counted {
                1nat
            } else {
                0nat
            },
            final(self)@.expected == old(self)@.expected,
            final(self)@.deadline == old(self)@.deadline,
    {
        let ghost before = self.outstanding@;
        let mut i: usize = 0;
        while i < self.outstanding.len()
            invariant
                i <= self.outstanding@.len(),
                self.outstanding@ == before,
                before == old(self).outstanding@,
                self.received == old(self).received,
                self.expected == old(self).expected,
                self.deadline == old(self).deadline,
                self.received + before.len() == self.expected,
                forall|j: int| 0 <= j < i ==> before[j] != id,
            decreases self.outstanding@.len() - i,
        {
            if self.outstanding[i] == id {
                proof {
                    before.index_of_first_ensures(id);
                    assert(before[i as int] == id);
                }
                let _ = self.outstanding.remove(i);
                self.received = self.received + 1;
                return true;
            }
            i += 1;
        }
        proof {
            before.index_of_first_ensures(id);
        }
        false
    }

    /// The parameters asked for and not yet answered.
    pub fn outstanding(&self) -> (ids: &Vec<u8>)
        ensures
            ids@ == self@.outstanding,
    {
        &self.outstanding
    }

    /// How many requests the cycle sent.
    pub fn expected(&self) -> (count: usize)
        ensures
            count == self@.expected,
    {
        self.expected
    }

    /// How many requests were answered.
    pub fn received(&self) -> (count: usize)
        ensures
            count == self@.received,
    {
        self.received
    }

    /// When the cycle stops waiting.
    pub fn deadline(&self) -> (time: u64)
        ensures
            time == self@.deadline,
    {
        self.deadline
    }

    /// Whether every request was answered.
    pub fn is_complete(&self) -> (complete: bool)
        ensures
            complete == (self@.received == self@.expected),
    {
        self.received == self.expected
    }

    /// Whether the deadline has been reached at time `now`.
    pub fn is_expired(&self, now: u64) -> (expired: bool)
        ensures
            expired == (now >= self@.deadline),
    {
        now >= self.deadline
    }
}

} // verus!
