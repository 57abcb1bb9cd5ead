//! The data that a process shares with the processes forked from it:
//! environment variables, open resources and semaphores.
//!
//! The data of a group lives in a [`DataStore`]; a process holds a
//! [`DataHandle`] to it. Forking copies the handle, not the data, so every
//! process of a fork lineage reads and changes the same record.

use vstd::prelude::*;
use crate::input::InputBuffer;
use crate::pid::ProcessId;
use crate::resource::{transfer_result, Resource, ResourceSet};
use crate::sync::{SemaphoreResult, SemaphoreSet, SemaphoreState};

verus! {

/// One environment variable.
pub struct EnvVar {
    key: String,
    value: String,
}

/// The variables of a list, as a map from name to value. Where a name occurs
/// more than once, the last entry counts.
pub open spec fn env_of(vars: Seq<(Seq<char>, Seq<char>)>) -> Map<Seq<char>, Seq<char>>
    decreases vars.len(),
{
    if vars.len() == 0 {
        Map::empty()
    } else {
        env_of(vars.drop_last()).insert(vars.last().0, vars.last().1)
    }
}

/// No name occurs twice in the list.
pub open spec fn distinct_names(vars: Seq<(Seq<char>, Seq<char>)>) -> bool {
    forall|i: int, j: int| 0 <= i < j < vars.len() ==> vars[i].0 != vars[j].0
}

proof fn lemma_env_absent(vars: Seq<(Seq<char>, Seq<char>)>, name: Seq<char>)
    requires
        forall|i: int| 0 <= i < vars.len() ==> vars[i].0 != name,
    ensures
        !env_of(vars).contains_key(name),
    decreases vars.len(),
{
    if vars.len() > 0 {
        lemma_env_absent(vars.drop_last(), name);
    }
}

proof fn lemma_env_present(vars: Seq<(Seq<char>, Seq<char>)>, at: int)
    requires
        distinct_names(vars),
        0 <= at < vars.len(),
    ensures
        env_of(vars).contains_key(vars[at].0),
        env_of(vars)[vars[at].0] == vars[at].1,
    decreases vars.len(),
{
    if at < vars.len() - 1 {
        lemma_env_present(vars.drop_last(), at);
    }
}

proof fn lemma_env_replace(vars: Seq<(Seq<char>, Seq<char>)>, at: int, value: Seq<char>)
    requires
        distinct_names(vars),
        0 <= at < vars.len(),
    ensures
        env_of(vars.update(at, (vars[at].0, value))) == env_of(vars).insert(vars[at].0, value),
        distinct_names(vars.update(at, (vars[at].0, value))),
    decreases vars.len(),
{
    let changed = vars.update(at, (vars[at].0, value));
    if at == vars.len() - 1 {
        assert(changed.drop_last() == vars.drop_last());
        assert(env_of(changed) == env_of(vars).insert(vars[at].0, value));
    } else {
        lemma_env_replace(vars.drop_last(), at, value);
        assert(changed.drop_last() == vars.drop_last().update(at, (vars[at].0, value)));
        assert(env_of(changed) == env_of(vars).insert(vars[at].0, value));
    }
}

/// Mathematical state of the data of one group of processes.
pub struct DataState {
    /// The environment variables, by name.
    pub vars: Map<Seq<char>, Seq<char>>,
    /// The open resources, by descriptor.
    pub resources: Map<u8, Resource>,
    /// The semaphores, by key.
    pub semaphores: Map<u32, SemaphoreState>,
}

impl DataState {
    /// Data of a new group: no variables, the three console streams, no semaphores.
    pub open spec fn fresh() -> Self {
        DataState {
            vars: Map::empty(),
            resources: ResourceSet::standard(),
            semaphores: Map::empty(),
        }
    }

    /// Every semaphore is well formed.
    pub open spec fn wf(self) -> bool {
        forall|key: u32| self.semaphores.contains_key(key) ==> (#[trigger] self.semaphores[key]).wf()
    }

    /// The state after process `pid` has asked the semaphore `key` for a grant.
    pub open spec fn after_wait(self, key: u32, pid: ProcessId) -> Self {
        if self.semaphores.contains_key(key) {
            DataState {
                semaphores: self.semaphores.insert(key, self.semaphores[key].after_wait(pid)),
                ..self
            }
        } else {
            self
        }
    }

    /// What the request of `pid` to the semaphore `key` is answered with.
    pub open spec fn wait_result(self, key: u32, pid: ProcessId) -> SemaphoreResult {
        if self.semaphores.contains_key(key) {
            self.semaphores[key].wait_result(pid)
        } else {
            SemaphoreResult::NotExist
        }
    }

    /// The state after a grant has been given back to the semaphore `key`.
    pub open spec fn after_signal(self, key: u32) -> Self {
        if self.semaphores.contains_key(key) {
            DataState {
                semaphores: self.semaphores.insert(key, self.semaphores[key].after_signal()),
                ..self
            }
        } else {
            self
        }
    }

    /// What giving back a grant to the semaphore `key` is answered with.
    pub open spec fn signal_result(self, key: u32) -> SemaphoreResult {
        if self.semaphores.contains_key(key) {
            self.semaphores[key].signal_result()
        } else {
            SemaphoreResult::NotExist
        }
    }

    /// The state after a semaphore with `value` free grants has been asked
    /// for under `key`: it is there unless the key was taken.
    pub open spec fn after_new(self, key: u32, value: usize) -> Self {
        if self.semaphores.contains_key(key) {
            self
        } else {
            DataState {
                semaphores: self.semaphores.insert(key, SemaphoreState::fresh(value as nat)),
                ..self
            }
        }
    }

    /// The state without the semaphore `key`.
    pub open spec fn after_remove(self, key: u32) -> Self {
        DataState { semaphores: self.semaphores.remove(key), ..self }
    }

    /// The state with the variable `name` set to `value`.
    pub open spec fn with_var(self, name: Seq<char>, value: Seq<char>) -> Self {
        DataState { vars: self.vars.insert(name, value), ..self }
    }

    /// Result of reading descriptor `fd` with `room` bytes of buffer while
    /// the keys `input` are waiting.
    pub open spec fn read_result(self, fd: u8, input: Seq<u8>, room: nat) -> isize {
        if self.resources.contains_key(fd) {
            transfer_result(self.resources[fd].read_count(input, room))
        } else {
            -1isize
        }
    }

    /// Whether reading descriptor `fd` moves a key from `input` into the buffer.
    pub open spec fn read_takes_key(self, fd: u8, input: Seq<u8>, room: nat) -> bool {
        self.resources.contains_key(fd) && self.resources[fd].takes_key(input, room)
    }

    /// Result of writing `len` bytes to descriptor `fd`.
    pub open spec fn write_result(self, fd: u8, len: usize) -> isize {
        if self.resources.contains_key(fd) {
            transfer_result(self.resources[fd].write_count(len))
        } else {
            -1isize
        }
    }
}

/// The data of one group of processes.
pub struct ProcessData {
    env: Vec<EnvVar>,
    resources: ResourceSet,
    semaphores: SemaphoreSet,
}

impl View for ProcessData {
    type V = DataState;

    closed spec fn view(&self) -> DataState {
        DataState {
            vars: env_of(self.entries()),
            resources: self.resources@,
            semaphores: self.semaphores@,
        }
    }
}

impl ProcessData {
    /// The stored variables as pairs of name and value, in the order they are stored.
    pub closed spec fn entries(&self) -> Seq<(Seq<char>, Seq<char>)> {
        Seq::new(self.env@.len(), |i: int| (self.env@[i].key@, self.env@[i].value@))
    }

    /// No variable is stored twice.
    pub closed spec fn unique_names(&self) -> bool {
        distinct_names(self.entries())
    }

    /// No variable is stored twice and every semaphore is well formed.
    pub open spec fn wf(&self) -> bool {
        self.unique_names() && self@.wf()
    }

    /// Data of a new group: no variables, the three console streams, no semaphores.
    pub fn new() -> (data: Self)
        ensures
            data.wf(),
            data@ == DataState::fresh(),
    {
        ProcessData { env: Vec::new(), resources: ResourceSet::new(), semaphores: SemaphoreSet::new() }
    }

    fn find(&self, key: &String) -> (at: Option<usize>)
        ensures
            match at {
                Some(i) => i < self.entries().len() && self.entries()[i as int].0 == key@,
                None => forall|i: int| 0 <= i < self.entries().len() ==> self.entries()[i].0 != key@,
            },
    {
        let mut i: usize = 0;
        while i < self.env.len()
            invariant
                i <= self.env@.len(),
                self.entries().len() == self.env@.len(),
                forall|j: int| 0 <= j < i ==> self.entries()[j].0 != key@,
            decreases self.env@.len() - i,
        {
            if self.env[i].key == *key {
                return Some(i);
            }
            i = i + 1;
        }
        None
    }

    /// Value of the variable `key`, if it is set.
    pub fn env(&self, key: &str) -> (value: Option<String>)
        requires
            self.wf(),
        ensures
            match value {
                Some(v) => self@.vars.contains_key(key@) && v@ == self@.vars[key@],
                None => !self@.vars.contains_key(key@),
            },
    {
        let name = key.to_owned();
        match self.find(&name) {
            Some(i) => {
                proof {
                    lemma_env_present(self.entries(), i as int);
                }
                Some(self.env[i].value.clone())
            },
            None => {
                proof {
                    lemma_env_absent(self.entries(), key@);
                }
                None
            },
        }
    }

    /// Sets the variable `key` to `val`.
    pub fn put_env(&mut self, key: &str, val: &str)
        requires
            old(self).wf(),
        ensures
            final(self).wf(),
            final(self)@ == old(self)@.with_var(key@, val@),
    {
        let name = key.to_owned();
        let value = val.to_owned();
        match self.find(&name) {
            Some(i) => {
                self.env[i].value = value;
                proof {
                    lemma_env_replace(old(self).entries(), i as int, val@);
                    assert(self.entries() == old(self).entries().update(i as int, (key@, val@)));
                }
            },
            None => {
                self.env.push(EnvVar { key: name, value });
                proof {
                    let before = old(self).entries();
                    let after = self.entries();
                    assert(after.drop_last() == before);
                    assert(after.last() == (key@, val@));
                    assert forall|i: int, j: int| 0 <= i < j < after.len() implies after[i].0
                        != after[j].0 by {
                        assert(after[i] == before[i]);
                        if j < before.len() {
                            assert(after[j] == before[j]);
                        }
                    }
                }
            },
        }
        proof {
            assert(self.unique_names());
            assert forall|k: u32| self@.semaphores.contains_key(k) implies (
            #[trigger] self@.semaphores[k]).wf() by {
                assert(old(self)@.semaphores[k].wf());
            }
        }
    }

    /// The data with the variable `key` set to `val`.
    pub fn set_env(self, key: &str, val: &str) -> (data: Self)
        requires
            self.wf(),
        ensures
            data.wf(),
            data@ == self@.with_var(key@, val@),
    {
        let mut data = self;
        data.put_env(key, val);
        data
    }

    /// The resource behind descriptor `fd`, if it is open.
    pub fn handle(&self, fd: u8) -> (resource: Option<Resource>)
        ensures
            resource == (if self@.resources.contains_key(fd) {
                Some(self@.resources[fd])
            } else {
                None
            }),
    {
        self.resources.handle(fd)
    }

    /// Reads from descriptor `fd` into `buf`; see [`ResourceSet::read`].
    pub fn read(&self, fd: u8, input: &mut InputBuffer, buf: &mut [u8]) -> (result: isize)
        ensures
            final(input).capacity() == old(input).capacity(),
            result == self@.read_result(fd, old(input)@, old(buf)@.len()),
            self@.read_takes_key(fd, old(input)@, old(buf)@.len()) ==> {
                &&& final(buf)@ == old(buf)@.update(0, old(input)@[0])
                &&& final(input)@ == old(input)@.drop_first()
            },
            !self@.read_takes_key(fd, old(input)@, old(buf)@.len()) ==> {
                &&& final(buf)@ == old(buf)@
                &&& final(input)@ == old(input)@
            },
    {
        self.resources.read(fd, input, buf)
    }

    /// Number of bytes of `buf` that descriptor `fd` accepts, or -1; see
    /// [`ResourceSet::write`].
    pub fn write(&self, fd: u8, buf: &[u8]) -> (result: isize)
        ensures
            result == self@.write_result(fd, buf@.len() as usize),
    {
        self.resources.write(fd, buf)
    }

    /// Asks the semaphore under `key` for a grant on behalf of `pid`; see
    /// [`SemaphoreSet::wait`].
    pub fn sem_wait(&mut self, key: u32, pid: ProcessId) -> (result: SemaphoreResult)
        requires
            old(self).wf(),
        ensures
            final(self).wf(),
            final(self)@ == old(self)@.after_wait(key, pid),
            result == old(self)@.wait_result(key, pid),
    {
        self.semaphores.wait(key, pid)
    }

    /// Gives a grant back to the semaphore under `key`; see
    /// [`SemaphoreSet::signal`].
    pub fn sem_signal(&mut self, key: u32) -> (result: SemaphoreResult)
        requires
            old(self).wf(),
        ensures
            final(self).wf(),
            final(self)@ == old(self)@.after_signal(key),
            result == old(self)@.signal_result(key),
    {
        self.semaphores.signal(key)
    }

    /// Creates a semaphore with `value` free grants under `key`; `false`,
    /// with nothing changed, when the key is taken.
    pub fn sem_new(&mut self, key: u32, value: usize) -> (created: bool)
        requires
            old(self).wf(),
        ensures
            final(self).wf(),
            final(self)@ == old(self)@.after_new(key, value),
            created == !old(self)@.semaphores.contains_key(key),
    {
        self.semaphores.insert(key, value)
    }

    /// Free grants of the semaphore under `key`, if there is one.
    pub fn sem_count(&self, key: u32) -> (count: Option<usize>)
        ensures
            count.is_some() == self@.semaphores.contains_key(key),
            count matches Some(c) ==> c == self@.semaphores[key].count,
    {
        self.semaphores.count(key)
    }

    /// Destroys the semaphore under `key`; `false` when there is none.
    pub fn sem_remove(&mut self, key: u32) -> (removed: bool)
        requires
            old(self).wf(),
        ensures
            final(self).wf(),
            final(self)@ == old(self)@.after_remove(key),
            removed == old(self)@.semaphores.contains_key(key),
    {
        self.semaphores.remove(key)
    }
}

/// State of the data that a new process starts with: that of the data it
/// was given, or that of a new group if it was given none.
pub open spec fn initial_data(given: Option<ProcessData>) -> DataState {
    match given {
        Some(data) => data@,
        None => DataState::fresh(),
    }
}

/// Names the data of one group in a [`DataStore`].
#[derive(Clone, Copy, Debug, PartialEq, Eq, Structural)]
pub struct DataHandle(pub usize);

/// The data of all groups of processes. A group is never removed, so a
/// handle stays valid once it has been handed out.
pub struct DataStore {
    groups: Vec<ProcessData>,
}

impl View for DataStore {
    type V = Seq<DataState>;

    closed spec fn view(&self) -> Seq<DataState> {
        Seq::new(self.groups@.len(), |i: int| self.groups@[i]@)
    }
}

impl DataStore {
    /// No group stores a variable twice.
    pub closed spec fn unique_names(&self) -> bool {
        forall|i: int| 0 <= i < self.groups@.len() ==> (#[trigger] self.groups@[i]).unique_names()
    }

    /// The data of every group is well formed.
    pub open spec fn wf(&self) -> bool {
        &&& self.unique_names()
        &&& forall|i: int| 0 <= i < self@.len() ==> (#[trigger] self@[i]).wf()
    }

    /// Whether `handle` names a group of this store.
    pub open spec fn holds(&self, handle: DataHandle) -> bool {
        handle.0 < self@.len()
    }

    /// A store without groups.
    pub fn new() -> (store: Self)
        ensures
            store@ == Seq::<DataState>::empty(),
            store.wf(),
    {
        let store = DataStore { groups: Vec::new() };
        assert(store@ =~= Seq::<DataState>::empty());
        store
    }

    /// Adds the data of a new group and returns the handle to it.
    pub fn add(&mut self, data: ProcessData) -> (handle: DataHandle)
        requires
            old(self).wf(),
            data.wf(),
        ensures
            final(self).wf(),
            final(self)@ == old(self)@.push(data@),
            handle.0 == old(self)@.len(),
    {
        let handle = DataHandle(self.groups.len());
        self.groups.push(data);
        proof {
            assert(self@ =~= old(self)@.push(data@));
            assert forall|i: int| 0 <= i < self.groups@.len() implies (
            #[trigger] self.groups@[i]).unique_names() by {
                if i < old(self).groups@.len() {
                    assert(self.groups@[i] == old(self).groups@[i]);
                }
            }
            assert forall|i: int| 0 <= i < self@.len() implies (#[trigger] self@[i]).wf() by {
                if i < old(self)@.len() {
                    assert(self@[i] == old(self)@[i]);
                }
            }
        }
        handle
    }

    /// The data that `handle` names.
    pub fn get(&self, handle: DataHandle) -> (data: &ProcessData)
        requires
            self.wf(),
            self.holds(handle),
        ensures
            data@ == self@[handle.0 as int],
            data.wf(),
    {
        assert(self@[handle.0 as int].wf());
        &self.groups[handle.0]
    }

    /// The data that `handle` names, to be changed in place. The store is
    /// well formed again once the data is.
    pub fn get_mut(&mut self, handle: DataHandle) -> (data: &mut ProcessData)
        requires
            old(self).wf(),
            old(self).holds(handle),
        ensures
            data@ == old(self)@[handle.0 as int],
            data.wf(),
            final(self)@ == old(self)@.update(handle.0 as int, final(data)@),
            final(data).wf() ==> final(self).wf(),
    {
        assert(self@[handle.0 as int].wf());
        &mut self.groups[handle.0]
    }
}

} // verus!
