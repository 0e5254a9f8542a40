//! A rolling log of performance samples.
//!
//! The log keeps at most `capacity` entries: once full, pushing a new sample
//! drops the oldest one.  Entries are read oldest first through a cursor.

use std::collections::VecDeque;
use vstd::prelude::*;

verus! {

/// One sample of system performance: aggregate CPU load as a percentage, and
/// memory usage as (used bytes, total bytes).
pub struct PerfData {
    pub cpu_usage: u16,
    pub mem_usage: (u64, u64),
}

/// The rolling log itself.  Its view is the sequence of retained samples,
/// oldest first.
pub struct PerfLog<T> {
    data: VecDeque<T>,
    capacity: usize,
}

impl<T> View for PerfLog<T> {
    type V = Seq<T>;

    closed spec fn view(&self) -> Seq<T> {
        self.data@
    }
}

impl<T> PerfLog<T> {
    /// The number of samples the log retains.
    pub closed spec fn spec_capacity(&self) -> usize {
        self.capacity
    }

    /// An empty log retaining at most `capacity` samples.
    pub fn new(capacity: usize) -> (r: PerfLog<T>)
        ensures
            r@ == Seq::<T>::empty(),
            r.spec_capacity() == capacity,
    {
        PerfLog { data: VecDeque::with_capacity(capacity), capacity }
    }

    /// Appends a sample; when the log already holds `capacity` entries, the
    /// oldest one is dropped in the same step.  A log that started within a
    /// positive capacity stays within it.
    pub fn push(&mut self, value: T)
        ensures
            final(self).spec_capacity() == old(self).spec_capacity(),
            old(self)@.len() == old(self).spec_capacity() && old(self)@.len() > 0 ==> final(self)@
                == old(self)@.drop_first().push(value),
            old(self)@.len() != old(self).spec_capacity() || old(self)@.len() == 0 ==> final(self)@
                == old(self)@.push(value),
            old(self)@.len() <= old(self).spec_capacity() && old(self).spec_capacity() >= 1
                ==> final(self)@.len() <= final(self).spec_capacity(),
    {
        if self.data.len() == self.capacity {
            let ghost pre = self.data@;
            self.data.pop_front();
            proof {
                if pre.len() > 0 {
                    assert(self.data@ =~= pre.drop_first());
                }
            }
        }
        self.data.push_back(value);
    }

    /// The most recent sample, or nothing while the log is empty.
    pub fn last(&self) -> (r: Option<&T>)
        ensures
            self@.len() == 0 ==> r is None,
            self@.len() > 0 ==> (r matches Some(v) && *v == self@.last()),
    {
        if self.data.len() == 0 {
            None
        } else {
            Some(&self.data[self.data.len() - 1])
        }
    }

    /// A cursor over the samples, oldest first.
    pub fn iter(&self) -> (r: PerfLogIter<T>)
        ensures
            r.elements() == self@,
            r.position() == 0,
    {
        PerfLogIter { data: &self.data, index: 0 }
    }
}

/// A cursor over a `PerfLog`, handing samples out oldest first.
pub struct PerfLogIter<'a, T> {
    data: &'a VecDeque<T>,
    index: usize,
}

impl<'a, T> PerfLogIter<'a, T> {
    /// The samples the cursor walks.
    pub closed spec fn elements(&self) -> Seq<T> {
        self.data@
    }

    /// How many samples have been handed out.
    pub closed spec fn position(&self) -> int {
        self.index as int
    }

    /// The next sample, oldest first, or nothing once all have been seen.
    pub fn next(&mut self) -> (r: Option<&'a T>)
        ensures
            final(self).elements() == old(self).elements(),
            old(self).position() < old(self).elements().len() ==> {
                &&& r matches Some(v)
                &&& *v == old(self).elements()[old(self).position()]
                &&& final(self).position() == old(self).position() + 1
            },
            old(self).position() >= old(self).elements().len() ==> {
                &&& r is None
                &&& final(self).position() == old(self).position()
            },
    {
        if self.index < self.data.len() {
            let result = &self.data[self.index];
            self.index = self.index + 1;
            Some(result)
        } else {
            None
        }
    }
}

} // verus!
