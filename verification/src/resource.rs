//! The resources a process can read from and write to, by descriptor.

use vstd::prelude::*;
use std::collections::BTreeMap;
use crate::input::{try_pop_key, InputBuffer};

verus! {

/// The three standard streams of the console.
#[derive(Clone, Copy, Debug, PartialEq, Eq, Structural)]
pub enum StdIO {
    Stdin,
    Stdout,
    Stderr,
}

/// Something that a descriptor can stand for.
#[derive(Clone, Copy, Debug, PartialEq, Eq, Structural)]
pub enum Resource {
    /// One of the console streams.
    Console(StdIO),
    /// A sink that accepts everything and yields nothing.
    Null,
}

/// Descriptor of the standard input.
pub const STDIN_FD: u8 = 0;

/// Descriptor of the standard output.
pub const STDOUT_FD: u8 = 1;

/// Descriptor of the standard error stream.
pub const STDERR_FD: u8 = 2;

/// A byte count as a system-call result: the count itself, capped at `isize::MAX`.
pub open spec fn count_result(count: usize) -> isize {
    if count <= isize::MAX {
        count as isize
    } else {
        isize::MAX
    }
}

/// The result of a read or write as a system-call result: the byte count, or
/// -1 when the resource refused.
pub open spec fn transfer_result(count: Option<usize>) -> isize {
    match count {
        Some(n) => count_result(n),
        None => -1isize,
    }
}

fn to_result(count: Option<usize>) -> (result: isize)
    ensures
        result == transfer_result(count),
{
    match count {
        Some(n) => if n <= isize::MAX as usize {
            n as isize
        } else {
            isize::MAX
        },
        None => -1,
    }
}

impl Resource {
    /// Whether reading moves a key from `input` into the buffer: the resource
    /// is the standard input, a key is waiting and the buffer has room for it.
    pub open spec fn takes_key(&self, input: Seq<u8>, room: nat) -> bool {
        *self == Resource::Console(StdIO::Stdin) && input.len() > 0 && room > 0
    }

    /// Number of bytes a read yields; `None` when the resource cannot be read.
    pub open spec fn read_count(&self, input: Seq<u8>, room: nat) -> Option<usize> {
        match *self {
            Resource::Console(StdIO::Stdin) => if input.len() > 0 && room > 0 {
                Some(1usize)
            } else {
                Some(0usize)
            },
            Resource::Console(_) => None,
            Resource::Null => Some(0usize),
        }
    }

    /// Number of bytes a write of `len` bytes accepts; `None` when the
    /// resource cannot be written.
    pub open spec fn write_count(&self, len: usize) -> Option<usize> {
        match *self {
            Resource::Console(StdIO::Stdin) => None,
            _ => Some(len),
        }
    }

    /// Reads into `buf`.
    ///
    /// The standard input yields at most one key per call: the oldest key of
    /// `input` goes to `buf[0]`, if there is a key and `buf` is not empty. The
    /// other console streams cannot be read, and `Null` yields nothing.
    pub fn read(&self, input: &mut InputBuffer, buf: &mut [u8]) -> (count: Option<usize>)
        ensures
            count == self.read_count(old(input)@, old(buf)@.len()),
            final(input).capacity() == old(input).capacity(),
            self.takes_key(old(input)@, old(buf)@.len()) ==> {
                &&& final(buf)@ == old(buf)@.update(0, old(input)@[0])
                &&& final(input)@ == old(input)@.drop_first()
            },
            !self.takes_key(old(input)@, old(buf)@.len()) ==> {
                &&& final(buf)@ == old(buf)@
                &&& final(input)@ == old(input)@
            },
    {
        match self {
            Resource::Console(stdio) => match stdio {
                StdIO::Stdin => {
                    if buf.len() == 0 {
                        return Some(0);
                    }
                    match try_pop_key(input) {
                        Some(key) => {
                            buf[0] = key;
                            Some(1)
                        },
                        None => Some(0),
                    }
                },
                _ => None,
            },
            Resource::Null => Some(0),
        }
    }

    /// Number of bytes of `buf` that the resource accepts.
    ///
    /// The output streams and `Null` accept every byte; the standard input
    /// accepts none. Putting the accepted bytes on the console is left to
    /// the caller.
    pub fn write(&self, buf: &[u8]) -> (count: Option<usize>)
        ensures
            count == self.write_count(buf@.len() as usize),
    {
        match self {
            Resource::Console(stdio) => match stdio {
                StdIO::Stdin => None,
                StdIO::Stdout => Some(buf.len()),
                StdIO::Stderr => Some(buf.len()),
            },
            Resource::Null => Some(buf.len()),
        }
    }
}

/// The open resources of a group of processes, by descriptor.
pub struct ResourceSet {
    handles: BTreeMap<u8, Resource>,
}

impl View for ResourceSet {
    type V = Map<u8, Resource>;

    closed spec fn view(&self) -> Map<u8, Resource> {
        self.handles@
    }
}

impl ResourceSet {
    /// The table every process starts with: the three console streams under
    /// the descriptors 0, 1 and 2.
    pub open spec fn standard() -> Map<u8, Resource> {
        Map::<u8, Resource>::empty().insert(STDIN_FD, Resource::Console(StdIO::Stdin)).insert(
            STDOUT_FD,
            Resource::Console(StdIO::Stdout),
        ).insert(STDERR_FD, Resource::Console(StdIO::Stderr))
    }

    /// The table with the three console streams.
    pub fn new() -> (set: Self)
        ensures
            set@ == Self::standard(),
    {
        let mut handles = BTreeMap::new();
        handles.insert(STDIN_FD, Resource::Console(StdIO::Stdin));
        handles.insert(STDOUT_FD, Resource::Console(StdIO::Stdout));
        handles.insert(STDERR_FD, Resource::Console(StdIO::Stderr));
        ResourceSet { handles }
    }

    /// The resource behind descriptor `fd`, if it is open.
    pub fn handle(&self, fd: u8) -> (resource: Option<Resource>)
        ensures
            resource == (if self@.contains_key(fd) {
                Some(self@[fd])
            } else {
                None
            }),
    {
        match self.handles.get(&fd) {
            Some(resource) => Some(*resource),
            None => None,
        }
    }

    /// Reads from descriptor `fd` into `buf`; see [`Resource::read`].
    ///
    /// Returns the number of bytes read, or -1 when the descriptor is not
    /// open or cannot be read.
    pub fn read(&self, fd: u8, input: &mut InputBuffer, buf: &mut [u8]) -> (result: isize)
        ensures
            final(input).capacity() == old(input).capacity(),
            !self@.contains_key(fd) ==> {
                &&& result == -1
                &&& final(buf)@ == old(buf)@
                &&& final(input)@ == old(input)@
            },
            self@.contains_key(fd) ==> {
                &&& result == transfer_result(
                    self@[fd].read_count(old(input)@, old(buf)@.len()),
                )
                &&& self@[fd].takes_key(old(input)@, old(buf)@.len()) ==> {
                    &&& final(buf)@ == old(buf)@.update(0, old(input)@[0])
                    &&& final(input)@ == old(input)@.drop_first()
                }
                &&& !self@[fd].takes_key(old(input)@, old(buf)@.len()) ==> {
                    &&& final(buf)@ == old(buf)@
                    &&& final(input)@ == old(input)@
                }
            },
    {
        match self.handles.get(&fd) {
            Some(resource) => to_result(resource.read(input, buf)),
            None => -1,
        }
    }

    /// Number of bytes of `buf` that descriptor `fd` accepts, or -1 when the
    /// descriptor is not open or cannot be written; see [`Resource::write`].
    pub fn write(&self, fd: u8, buf: &[u8]) -> (result: isize)
        ensures
            result == (if self@.contains_key(fd) {
                transfer_result(self@[fd].write_count(buf@.len() as usize))
            } else {
                -1isize
            }),
    {
        match self.handles.get(&fd) {
            Some(resource) => to_result(resource.write(buf)),
            None => -1,
        }
    }
}

} // verus!
