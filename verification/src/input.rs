//! The keyboard input buffer and the line editing done on top of it.

use vstd::prelude::*;
use crossbeam_queue::ArrayQueue;

verus! {

/// Number of keys the input buffer holds before further keys are dropped.
pub const INPUT_BUFFER_SIZE: usize = 128;

/// The key that ends a line.
pub const KEY_ENTER: u8 = 0x0d;

/// The keys that delete the last character of the line.
pub const KEY_BACKSPACE: u8 = 0x08;

/// See [`KEY_BACKSPACE`].
pub const KEY_DELETE: u8 = 0x7f;

#[verifier::external_type_specification]
#[verifier::external_body]
#[verifier::reject_recursive_types(T)]
pub struct ExArrayQueue<T>(ArrayQueue<T>);

/// The keys that a queue holds, oldest first.
pub uninterp spec fn queued_keys(queue: ArrayQueue<u8>) -> Seq<u8>;

/// The number of keys that a queue was made to hold.
pub uninterp spec fn queue_capacity(queue: ArrayQueue<u8>) -> nat;

/// Makes an empty queue for `cap` keys.
///
/// Calls `crossbeam_queue::ArrayQueue::new`, which refuses a capacity of zero
/// and one so large that the next power of two does not fit.
#[verifier::external_body]
fn queue_new(cap: usize) -> (queue: ArrayQueue<u8>)
    requires
        0 < cap < 0x4000_0000,
    ensures
        queued_keys(queue) == Seq::<u8>::empty(),
        queue_capacity(queue) == cap,
{
    ArrayQueue::new(cap)
}

/// Appends `key` unless the queue is full; tells whether it did.
///
/// Calls `crossbeam_queue::ArrayQueue::push`, which hands the value back
/// when the queue holds as many keys as it was made for.
#[verifier::external_body]
fn queue_push(queue: &mut ArrayQueue<u8>, key: u8) -> (pushed: bool)
    ensures
        pushed == (queued_keys(*old(queue)).len() < queue_capacity(*old(queue))),
        pushed ==> queued_keys(*final(queue)) == queued_keys(*old(queue)).push(key),
        !pushed ==> queued_keys(*final(queue)) == queued_keys(*old(queue)),
        queue_capacity(*final(queue)) == queue_capacity(*old(queue)),
{
    queue.push(key).is_ok()
}

/// Takes the oldest key out of the queue, if there is one.
///
/// Calls `crossbeam_queue::ArrayQueue::pop`.
#[verifier::external_body]
fn queue_pop(queue: &mut ArrayQueue<u8>) -> (key: Option<u8>)
    ensures
        match key {
            Some(k) => {
                &&& queued_keys(*old(queue)).len() > 0
                &&& k == queued_keys(*old(queue))[0]
                &&& queued_keys(*final(queue)) == queued_keys(*old(queue)).drop_first()
            },
            None => {
                &&& queued_keys(*old(queue)).len() == 0
                &&& queued_keys(*final(queue)) == queued_keys(*old(queue))
            },
        },
        queue_capacity(*final(queue)) == queue_capacity(*old(queue)),
{
    queue.pop()
}

/// Whether the queue holds as many keys as it was made for.
///
/// Calls `crossbeam_queue::ArrayQueue::is_full`.
#[verifier::external_body]
fn queue_is_full(queue: &ArrayQueue<u8>) -> (full: bool)
    ensures
        full == (queued_keys(*queue).len() >= queue_capacity(*queue)),
{
    queue.is_full()
}

/// Collects characters into a string.
///
/// Calls `String::from_iter` of the standard library, which keeps the
/// characters and their order.
#[verifier::external_body]
pub(crate) fn string_of(chars: &Vec<char>) -> (text: String)
    ensures
        text@ == chars@,
{
    String::from_iter(chars.iter())
}

/// The line after `key` has been typed: backspace and delete take the last
/// character off, if there is one, and every other key adds its character.
pub open spec fn line_after_key(line: Seq<char>, key: u8) -> Seq<char> {
    if key == KEY_BACKSPACE || key == KEY_DELETE {
        if line.len() > 0 {
            line.drop_last()
        } else {
            line
        }
    } else {
        line.push(key as char)
    }
}

/// The line after all of `keys` have been typed, starting from `line`.
pub open spec fn line_after_keys(line: Seq<char>, keys: Seq<u8>) -> Seq<char>
    decreases keys.len(),
{
    if keys.len() == 0 {
        line
    } else {
        line_after_key(line_after_keys(line, keys.drop_last()), keys.last())
    }
}

/// Whether `at` is the position of the first [`KEY_ENTER`] in `keys`.
pub open spec fn first_enter(keys: Seq<u8>, at: int) -> bool {
    &&& 0 <= at < keys.len()
    &&& keys[at] == KEY_ENTER
    &&& forall|i: int| 0 <= i < at ==> keys[i] != KEY_ENTER
}

/// Whether `keys` holds no [`KEY_ENTER`].
pub open spec fn no_enter(keys: Seq<u8>) -> bool {
    forall|i: int| 0 <= i < keys.len() ==> keys[i] != KEY_ENTER
}

/// The keys that have arrived and not been read yet, oldest first.
pub struct InputBuffer {
    queue: ArrayQueue<u8>,
}

impl View for InputBuffer {
    type V = Seq<u8>;

    closed spec fn view(&self) -> Seq<u8> {
        queued_keys(self.queue)
    }
}

impl InputBuffer {
    /// Number of keys the buffer holds before it drops further ones.
    pub closed spec fn capacity(&self) -> nat {
        queue_capacity(self.queue)
    }

    /// An empty buffer for [`INPUT_BUFFER_SIZE`] keys.
    pub fn new() -> (buffer: Self)
        ensures
            buffer@ == Seq::<u8>::empty(),
            buffer.capacity() == INPUT_BUFFER_SIZE,
    {
        InputBuffer { queue: queue_new(INPUT_BUFFER_SIZE) }
    }

    /// Whether the buffer is full.
    pub fn is_full(&self) -> (full: bool)
        ensures
            full == (self@.len() >= self.capacity()),
    {
        queue_is_full(&self.queue)
    }
}

/// Stores a key that has arrived. A key that arrives while the buffer is full
/// is dropped; the result tells whether the key was stored.
pub fn push_key(buffer: &mut InputBuffer, key: u8) -> (stored: bool)
    ensures
        stored == (old(buffer)@.len() < old(buffer).capacity()),
        stored ==> final(buffer)@ == old(buffer)@.push(key),
        !stored ==> final(buffer)@ == old(buffer)@,
        final(buffer).capacity() == old(buffer).capacity(),
{
    if buffer.is_full() {
        false
    } else {
        queue_push(&mut buffer.queue, key)
    }
}

/// Takes the oldest key out of the buffer; `None` when the buffer is empty.
pub fn try_pop_key(buffer: &mut InputBuffer) -> (key: Option<u8>)
    ensures
        key == (if old(buffer)@.len() > 0 {
            Some(old(buffer)@[0])
        } else {
            None
        }),
        final(buffer)@ == (if old(buffer)@.len() > 0 {
            old(buffer)@.drop_first()
        } else {
            old(buffer)@
        }),
        final(buffer).capacity() == old(buffer).capacity(),
{
    queue_pop(&mut buffer.queue)
}

/// Takes the oldest key out of a buffer that holds one.
pub fn pop_key(buffer: &mut InputBuffer) -> (key: u8)
    requires
        old(buffer)@.len() > 0,
    ensures
        key == old(buffer)@[0],
        final(buffer)@ == old(buffer)@.drop_first(),
        final(buffer).capacity() == old(buffer).capacity(),
{
    match try_pop_key(buffer) {
        Some(key) => key,
        None => 0,
    }
}

/// Reads keys into the line `partial` until [`KEY_ENTER`] arrives or the
/// buffer runs empty.
///
/// With an enter key in the buffer, the keys before the first one are applied
/// to `partial` as [`line_after_keys`] says, the finished line is returned,
/// `partial` is left empty and the buffer keeps the keys behind the enter key.
/// Without one, all keys are applied to `partial`, the buffer is left empty
/// and the result is `None`: the line goes on with the keys that arrive later.
pub fn get_line(buffer: &mut InputBuffer, partial: &mut Vec<char>) -> (line: Option<String>)
    ensures
        final(buffer).capacity() == old(buffer).capacity(),
        match line {
            Some(text) => exists|at: int|
                {
                    &&& first_enter(old(buffer)@, at)
                    &&& text@ == line_after_keys(old(partial)@, old(buffer)@.take(at))
                    &&& final(buffer)@ == old(buffer)@.skip(at + 1)
                    &&& final(partial)@.len() == 0
                },
            None => {
                &&& no_enter(old(buffer)@)
                &&& final(partial)@ == line_after_keys(old(partial)@, old(buffer)@)
                &&& final(buffer)@.len() == 0
            },
        },
{
    let ghost keys = buffer@;
    let ghost start = partial@;
    let ghost mut read: int = 0;
    loop
        invariant
            0 <= read <= keys.len(),
            keys == old(buffer)@,
            start == old(partial)@,
            buffer@ == keys.skip(read),
            buffer.capacity() == old(buffer).capacity(),
            no_enter(keys.take(read)),
            partial@ == line_after_keys(start, keys.take(read)),
        decreases buffer@.len(),
    {
        let key = match try_pop_key(buffer) {
            Some(key) => key,
            None => {
                proof {
                    assert(keys.take(read) == keys);
                }
                return None;
            },
        };
        proof {
            assert(key == keys[read]);
            assert(keys.skip(read).drop_first() == keys.skip(read + 1));
            assert(keys.take(read + 1).drop_last() == keys.take(read));
        }
        if key == KEY_ENTER {
            let text = string_of(partial);
            partial.clear();
            proof {
                assert forall|i: int| 0 <= i < read implies keys[i] != KEY_ENTER by {
                    assert(keys.take(read)[i] == keys[i]);
                }
                assert(first_enter(keys, read));
            }
            return Some(text);
        } else if key == KEY_BACKSPACE || key == KEY_DELETE {
            if partial.len() > 0 {
                partial.pop();
            }
        } else {
            partial.push(key as char);
        }
        proof {
            read = read + 1;
        }
    }
}

} // verus!
