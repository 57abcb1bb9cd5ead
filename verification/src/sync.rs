//! Counting semaphores, kept per key in a [`SemaphoreSet`].
//!
//! A semaphore is a counter and a queue of waiting processes. The counter
//! never goes below zero; a process that finds it at zero is queued instead,
//! so the number of queued processes is the amount by which the counter would
//! be negative.

use vstd::prelude::*;
use std::collections::BTreeMap;
use std::collections::VecDeque;
use crate::pid::ProcessId;

verus! {

/// Outcome of an operation on a semaphore.
#[derive(Clone, Copy, Debug, PartialEq, Eq, Structural)]
pub enum SemaphoreResult {
    /// The operation completed and nobody has to be blocked or woken.
    Done,
    /// There is no semaphore under the given key.
    NotExist,
    /// The process has been queued and must be blocked.
    Block(ProcessId),
    /// The process has left the queue and must be woken.
    WakeUp(ProcessId),
}

/// Mathematical state of one semaphore.
pub struct SemaphoreState {
    /// Grants that can be handed out without blocking.
    pub count: nat,
    /// The processes that wait for a grant, longest wait first.
    pub waiting: Seq<ProcessId>,
}

impl SemaphoreState {
    /// A semaphore with `value` free grants and nobody waiting.
    pub open spec fn fresh(value: nat) -> Self {
        SemaphoreState { count: value, waiting: Seq::empty() }
    }

    /// Processes wait only while the counter is zero.
    pub open spec fn wf(self) -> bool {
        self.waiting.len() > 0 ==> self.count == 0
    }

    /// The counter with the waiting processes taken off: negative exactly
    /// when somebody waits.
    pub open spec fn value(self) -> int {
        self.count - self.waiting.len()
    }

    /// State after `pid` has asked for a grant.
    pub open spec fn after_wait(self, pid: ProcessId) -> Self {
        if self.count > 0 {
            SemaphoreState { count: (self.count - 1) as nat, waiting: self.waiting }
        } else {
            SemaphoreState { count: self.count, waiting: self.waiting.push(pid) }
        }
    }

    /// What the request of `pid` for a grant is answered with.
    pub open spec fn wait_result(self, pid: ProcessId) -> SemaphoreResult {
        if self.count > 0 {
            SemaphoreResult::Done
        } else {
            SemaphoreResult::Block(pid)
        }
    }

    /// State after a grant has been given back. With somebody waiting the
    /// grant goes straight to the head of the queue; otherwise the counter
    /// goes up, unless it stands at `usize::MAX` already.
    pub open spec fn after_signal(self) -> Self {
        if self.waiting.len() > 0 {
            SemaphoreState { count: self.count, waiting: self.waiting.drop_first() }
        } else if self.count < usize::MAX {
            SemaphoreState { count: self.count + 1, waiting: self.waiting }
        } else {
            self
        }
    }

    /// What giving back a grant is answered with.
    pub open spec fn signal_result(self) -> SemaphoreResult {
        if self.waiting.len() > 0 {
            SemaphoreResult::WakeUp(self.waiting[0])
        } else {
            SemaphoreResult::Done
        }
    }
}

/// One semaphore: its counter and its queue of waiting processes.
pub struct SemaphoreRecord {
    count: usize,
    wait_queue: VecDeque<ProcessId>,
}

impl View for SemaphoreRecord {
    type V = SemaphoreState;

    closed spec fn view(&self) -> SemaphoreState {
        SemaphoreState { count: self.count as nat, waiting: self.wait_queue@ }
    }
}

impl SemaphoreRecord {
    /// A semaphore with `value` free grants and nobody waiting.
    pub fn new(value: usize) -> (sem: Self)
        ensures
            sem@ == SemaphoreState::fresh(value as nat),
            sem@.wf(),
    {
        SemaphoreRecord { count: value, wait_queue: VecDeque::new() }
    }

    /// Number of free grants.
    pub fn count(&self) -> (count: usize)
        ensures
            count == self@.count,
    {
        self.count
    }

    /// Number of waiting processes.
    pub fn waiting(&self) -> (waiting: usize)
        ensures
            waiting == self@.waiting.len(),
    {
        self.wait_queue.len()
    }

    /// Asks for a grant on behalf of `pid`.
    ///
    /// With a free grant the counter goes down and the answer is `Done`.
    /// Without one `pid` joins the end of the queue and the answer is
    /// `Block(pid)`.
    pub fn wait(&mut self, pid: ProcessId) -> (result: SemaphoreResult)
        requires
            old(self)@.wf(),
        ensures
            final(self)@ == old(self)@.after_wait(pid),
            result == old(self)@.wait_result(pid),
            final(self)@.wf(),
    {
        if self.count == 0 {
            self.wait_queue.push_back(pid);
            SemaphoreResult::Block(pid)
        } else {
            self.count = self.count - 1;
            SemaphoreResult::Done
        }
    }

    /// Gives a grant back.
    ///
    /// With somebody waiting the head of the queue leaves it and the answer
    /// is `WakeUp` with that process. Otherwise the counter goes up and the
    /// answer is `Done`.
    pub fn signal(&mut self) -> (result: SemaphoreResult)
        requires
            old(self)@.wf(),
        ensures
            final(self)@ == old(self)@.after_signal(),
            result == old(self)@.signal_result(),
            final(self)@.wf(),
    {
        match self.wait_queue.pop_front() {
            Some(pid) => {
                assert(self.wait_queue@ == old(self).wait_queue@.drop_first());
                SemaphoreResult::WakeUp(pid)
            },
            None => {
                if self.count < usize::MAX {
                    self.count = self.count + 1;
                }
                SemaphoreResult::Done
            },
        }
    }
}

/// The semaphores of a group of processes, by key.
pub struct SemaphoreSet {
    sems: BTreeMap<u32, SemaphoreRecord>,
}

impl View for SemaphoreSet {
    type V = Map<u32, SemaphoreState>;

    closed spec fn view(&self) -> Map<u32, SemaphoreState> {
        Map::new(|key: u32| self.sems@.contains_key(key), |key: u32| self.sems@[key]@)
    }
}

impl SemaphoreSet {
    /// Every semaphore of the set is well formed.
    pub open spec fn wf(&self) -> bool {
        forall|key: u32| self@.contains_key(key) ==> (#[trigger] self@[key]).wf()
    }

    /// A set without semaphores.
    pub fn new() -> (set: Self)
        ensures
            set@ == Map::<u32, SemaphoreState>::empty(),
            set.wf(),
    {
        let set = SemaphoreSet { sems: BTreeMap::new() };
        assert(set@ =~= Map::<u32, SemaphoreState>::empty());
        set
    }

    /// Creates a semaphore with `value` free grants under `key`.
    ///
    /// Returns `false`, and changes nothing, when the key is taken.
    pub fn insert(&mut self, key: u32, value: usize) -> (created: bool)
        requires
            old(self).wf(),
        ensures
            final(self).wf(),
            created == !old(self)@.contains_key(key),
            created ==> final(self)@ == old(self)@.insert(key, SemaphoreState::fresh(value as nat)),
            !created ==> final(self)@ == old(self)@,
    {
        if self.sems.contains_key(&key) {
            return false;
        }
        self.sems.insert(key, SemaphoreRecord::new(value));
        assert(self@ =~= old(self)@.insert(key, SemaphoreState::fresh(value as nat)));
        true
    }

    /// Destroys the semaphore under `key`; processes still queued on it are
    /// not woken. Returns `false` when there is none.
    pub fn remove(&mut self, key: u32) -> (removed: bool)
        requires
            old(self).wf(),
        ensures
            final(self).wf(),
            removed == old(self)@.contains_key(key),
            final(self)@ == old(self)@.remove(key),
    {
        let removed = self.sems.remove(&key).is_some();
        assert(self@ =~= old(self)@.remove(key));
        removed
    }

    /// Asks the semaphore under `key` for a grant on behalf of `pid`; see
    /// [`SemaphoreRecord::wait`]. Without such a semaphore the answer is
    /// `NotExist` and nothing changes.
    pub fn wait(&mut self, key: u32, pid: ProcessId) -> (result: SemaphoreResult)
        requires
            old(self).wf(),
        ensures
            final(self).wf(),
            !old(self)@.contains_key(key) ==> result == SemaphoreResult::NotExist && final(self)@
                == old(self)@,
            old(self)@.contains_key(key) ==> result == old(self)@[key].wait_result(pid) && final(self)@ == old(self)@.insert(key, old(self)@[key].after_wait(pid)),
    {
        match self.sems.remove(&key) {
            None => {
                assert(self@ =~= old(self)@);
                SemaphoreResult::NotExist
            },
            Some(mut sem) => {
                assert(sem@ == old(self)@[key]);
                let result = sem.wait(pid);
                self.sems.insert(key, sem);
                assert(self@ =~= old(self)@.insert(key, old(self)@[key].after_wait(pid)));
                result
            },
        }
    }

    /// Gives a grant back to the semaphore under `key`; see
    /// [`SemaphoreRecord::signal`]. Without such a semaphore the answer is
    /// `NotExist` and nothing changes.
    pub fn signal(&mut self, key: u32) -> (result: SemaphoreResult)
        requires
            old(self).wf(),
        ensures
            final(self).wf(),
            !old(self)@.contains_key(key) ==> result == SemaphoreResult::NotExist && final(self)@
                == old(self)@,
            old(self)@.contains_key(key) ==> result == old(self)@[key].signal_result() && final(self)@ == old(self)@.insert(key, old(self)@[key].after_signal()),
    {
        match self.sems.remove(&key) {
            None => {
                assert(self@ =~= old(self)@);
                SemaphoreResult::NotExist
            },
            Some(mut sem) => {
                assert(sem@ == old(self)@[key]);
                let result = sem.signal();
                self.sems.insert(key, sem);
                assert(self@ =~= old(self)@.insert(key, old(self)@[key].after_signal()));
                result
            },
        }
    }

    /// Free grants of the semaphore under `key`, if there is one.
    pub fn count(&self, key: u32) -> (count: Option<usize>)
        ensures
            count.is_some() == self@.contains_key(key),
            count matches Some(c) ==> c == self@[key].count,
    {
        match self.sems.get(&key) {
            Some(sem) => Some(sem.count()),
            None => None,
        }
    }
}

} // verus!
