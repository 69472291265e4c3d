//! The queue scheduler walks the corpus in order, as AFL does.
use vstd::prelude::*;
use crate::corpus::TestcaseId;
use crate::error::Error;
use super::Scheduler;

verus! {

/// Walks the corpus in a queue-like fashion: in the order the testcases
/// were added, starting over after the last one.
#[derive(Debug)]
pub struct QueueScheduler {
    queue: Vec<TestcaseId>,
    current: Option<usize>,
}

impl QueueScheduler {
    /// The position of the current testcase in the queue.
    pub closed spec fn spec_position(&self) -> Option<usize> {
        self.current
    }

    /// The current position always lies in the queue.
    #[verifier::type_invariant]
    closed spec fn inv(&self) -> bool {
        self.current matches Some(c) ==> c < self.queue@.len()
    }

    /// Creates an empty queue scheduler.
    pub fn new() -> (r: Self)
        ensures
            r.spec_ids() == Seq::<TestcaseId>::empty(),
            r.spec_position() is None,
            r.spec_current() is None,
    {
        QueueScheduler { current: None, queue: Vec::new() }
    }

    /// The position that `next` moves to from `position` in a queue of `len` entries.
    pub open spec fn spec_next_position(position: Option<usize>, len: nat) -> int {
        match position {
            Some(c) => if c + 1 < len {
                c + 1
            } else {
                0
            },
            None => 0,
        }
    }

}

/// The position of the queue after `k` calls of `next` from the start, in a
/// queue of `len` entries.
pub open spec fn spec_position_after(len: nat, k: nat) -> Option<usize>
    decreases k,
{
    if k == 0 {
        None
    } else {
        Some(QueueScheduler::spec_next_position(spec_position_after(len, (k - 1) as nat), len) as usize)
    }
}

/// The queue serves its entries in the order they were added, starting
/// over after the last one: the `k`-th call of `next` gives entry `(k - 1) % len`.
pub proof fn lemma_queue_round_robin(len: nat, k: nat)
    requires
        0 < len <= usize::MAX,
        k > 0,
    ensures
        spec_position_after(len, k) == Some(((k - 1) % (len as int)) as usize),
    decreases k,
{
    if k == 1 {
        assert(spec_position_after(len, 1) == Some(0usize));
        assert(0int % (len as int) == 0) by (nonlinear_arith)
            requires
                len > 0,
        ;
    }
    if k > 1 {
        lemma_queue_round_robin(len, (k - 1) as nat);
        let r = (k - 2) % (len as int);
        assert(0 <= r < len) by (nonlinear_arith)
            requires
                r == (k - 2) % (len as int),
                len > 0,
        ;
        assert(spec_position_after(len, (k - 1) as nat) == Some(r as usize));
        assert((r as usize) as int == r);
        assert(spec_position_after(len, k) == Some(
            QueueScheduler::spec_next_position(Some(r as usize), len) as usize,
        ));
        if r + 1 < len {
            assert((k - 1) % (len as int) == r + 1) by (nonlinear_arith)
                requires
                    r == (k - 2) % (len as int),
                    r + 1 < len,
                    len > 0,
                    k >= 2,
            ;
        } else {
            assert((k - 1) % (len as int) == 0) by (nonlinear_arith)
                requires
                    r == (k - 2) % (len as int),
                    r + 1 == len,
                    len > 0,
                    k >= 2,
            ;
        }
    }
}

impl Default for QueueScheduler {
    fn default() -> (r: Self)
        ensures
            r.spec_ids() == Seq::<TestcaseId>::empty(),
            r.spec_current() is None,
    {
        Self::new()
    }
}

impl Scheduler for QueueScheduler {
    closed spec fn spec_ids(&self) -> Seq<TestcaseId> {
        self.queue@
    }

    closed spec fn spec_current(&self) -> Option<TestcaseId> {
        match self.current {
            Some(c) => if c < self.queue@.len() {
                Some(self.queue@[c as int])
            } else {
                None
            },
            None => None,
        }
    }

    open spec fn spec_records_ids(&self) -> bool {
        true
    }

    fn on_add(&mut self, id: TestcaseId) -> (r: Result<(), Error>)
        ensures
            final(self).spec_position() == old(self).spec_position(),
    {
        proof {
            use_type_invariant(&*self);
        }
        let position = self.current;
        self.current = None;
        let mut queue: Vec<TestcaseId> = Vec::new();
        std::mem::swap(&mut queue, &mut self.queue);
        queue.push(id);
        self.queue = queue;
        self.current = position;
        Ok(())
    }

    fn current(&self) -> (r: Option<TestcaseId>) {
        match self.current {
            Some(c) => if c < self.queue.len() {
                Some(self.queue[c])
            } else {
                None
            },
            None => None,
        }
    }

    /// The entry after the current one, or the first one after the last or
    /// at the start: the queue is served in the order the ids were added.
    fn next(&mut self) -> (r: Result<Option<TestcaseId>, Error>)
        ensures
            old(self).spec_ids().len() == 0 ==> final(self).spec_position() == old(self).spec_position(),
            old(self).spec_ids().len() > 0 ==> {
                let p = Self::spec_next_position(old(self).spec_position(), old(self).spec_ids().len());
                &&& final(self).spec_position() == Some(p as usize)
                &&& r == Ok::<Option<TestcaseId>, Error>(Some(old(self).spec_ids()[p]))
            },
    {
        proof {
            use_type_invariant(&*self);
        }
        if self.queue.len() == 0 {
            Ok(None)
        } else {
            let idx = match self.current {
                Some(current) => if current < self.queue.len() - 1 {
                    current + 1
                } else {
                    0
                },
                None => 0,
            };
            self.current = Some(idx);
            Ok(Some(self.queue[idx]))
        }
    }

    fn ids(&self) -> (r: &[TestcaseId]) {
        self.queue.as_slice()
    }
}

} // verus!
