//! The library that user programs are written against: locks, semaphores
//! and the standard streams, each a thin layer over the kernel's services.
//!
//! A system call is modelled as a call on the process manager, made in the
//! name of the current process.

use vstd::prelude::*;
use vstd::string::StringSliceAdditionalSpecFns;
use crate::input::{string_of, InputBuffer};
use crate::manager::{ProcessManager, ProcessRow};
use crate::data::DataState;
use crate::resource::{Resource, StdIO, STDERR_FD, STDIN_FD, STDOUT_FD};
use crate::sync::SemaphoreResult;

verus! {

/// A lock that is taken by flipping a flag.
pub struct SpinLock {
    bolt: bool,
}

impl SpinLock {
    /// Whether the lock is taken.
    pub closed spec fn locked(&self) -> bool {
        self.bolt
    }

    /// A lock that nobody holds.
    pub fn new() -> (lock: Self)
        ensures
            !lock.locked(),
    {
        SpinLock { bolt: false }
    }

    /// Takes the lock if nobody holds it, and tells whether it did.
    pub fn try_acquire(&mut self) -> (taken: bool)
        ensures
            taken == !old(self).locked(),
            final(self).locked(),
    {
        if self.bolt {
            false
        } else {
            self.bolt = true;
            true
        }
    }

    /// Takes a lock that nobody holds. On a lock that is held this would
    /// wait for ever, as nobody else can release it meanwhile.
    pub fn acquire(&mut self)
        requires
            !old(self).locked(),
        ensures
            final(self).locked(),
    {
        self.bolt = true;
    }

    /// Gives the lock back.
    pub fn release(&mut self)
        ensures
            !final(self).locked(),
    {
        self.bolt = false;
    }
}

/// A semaphore of the calling process, named by its key.
#[derive(Clone, Copy, Debug, PartialEq, Eq, Structural, PartialOrd, Ord)]
pub struct Semaphore {
    key: u32,
}

impl Semaphore {
    /// The key that names the semaphore.
    pub closed spec fn key(&self) -> u32 {
        self.key
    }

    /// The semaphore with the key `key`. Nothing is created yet.
    pub fn new(key: u32) -> (sem: Self)
        ensures
            sem.key() == key,
    {
        Semaphore { key }
    }

    /// Creates the semaphore with `value` free grants; see
    /// [`ProcessManager::sem_new`].
    pub fn init(&self, kernel: &mut ProcessManager, value: usize) -> (created: bool)
        requires
            old(kernel).wf(),
            old(kernel)@.alive(old(kernel)@.current),
        ensures
            final(kernel).wf(),
            old(kernel)@.precedes(final(kernel)@),
            created == !old(kernel)@.data_of(old(kernel)@.current).semaphores.contains_key(
                self.key(),
            ),
            final(kernel)@ == old(kernel)@.with_data(
                old(kernel)@.current,
                old(kernel)@.data_of(old(kernel)@.current).after_new(self.key(), value),
            ),
    {
        kernel.sem_new(self.key, value)
    }

    /// Asks for a grant; see [`ProcessManager::sem_wait`]. The answer
    /// `Block` means that the process has been blocked and another one has
    /// to run.
    pub fn wait(&self, kernel: &mut ProcessManager) -> (result: SemaphoreResult)
        requires
            old(kernel).wf(),
            old(kernel)@.alive(old(kernel)@.current),
        ensures
            final(kernel).wf(),
            old(kernel)@.precedes(final(kernel)@),
            result == old(kernel)@.sem_wait_result(self.key()),
            final(kernel)@ == old(kernel)@.after_sem_wait(self.key()),
    {
        kernel.sem_wait(self.key)
    }

    /// Gives a grant back; see [`ProcessManager::sem_signal`].
    pub fn signal(&self, kernel: &mut ProcessManager) -> (result: SemaphoreResult)
        requires
            old(kernel).wf(),
            old(kernel)@.alive(old(kernel)@.current),
        ensures
            final(kernel).wf(),
            old(kernel)@.precedes(final(kernel)@),
            result == old(kernel)@.sem_signal_result(self.key()),
            final(kernel)@ == old(kernel)@.after_sem_signal(self.key()),
    {
        kernel.sem_signal(self.key)
    }

    /// Destroys the semaphore; see [`ProcessManager::sem_remove`].
    pub fn remove(&self, kernel: &mut ProcessManager) -> (removed: bool)
        requires
            old(kernel).wf(),
            old(kernel)@.alive(old(kernel)@.current),
        ensures
            final(kernel).wf(),
            old(kernel)@.precedes(final(kernel)@),
            removed == old(kernel)@.data_of(old(kernel)@.current).semaphores.contains_key(
                self.key(),
            ),
            final(kernel)@ == old(kernel)@.with_data(
                old(kernel)@.current,
                old(kernel)@.data_of(old(kernel)@.current).after_remove(self.key()),
            ),
    {
        kernel.sem_remove(self.key)
    }
}

/// The standard input of the calling process.
pub struct Stdin;

/// The standard output of the calling process.
pub struct Stdout;

/// The standard error stream of the calling process.
pub struct Stderr;

/// Size of the buffer that a character is read into.
pub const CHAR_BUFFER_SIZE: usize = 4;

/// A line being typed: what has been typed so far, and what the terminal
/// has to show for it.
pub struct LineEdit {
    pub line: Seq<char>,
    pub echo: Seq<char>,
}

/// Whether `c` ends a line: line feed, carriage return, Ctrl+C or Ctrl+D.
pub open spec fn ends_line(c: char) -> bool {
    c == '\n' || c == '\r' || c == '\x03' || c == '\x04'
}

/// Whether `c` erases the last character: backspace or delete.
pub open spec fn erases(c: char) -> bool {
    c == '\x08' || c == '\x7f'
}

/// The line after the character `c`, which does not end it, has been typed.
///
/// Backspace and delete take the last character off a line that has one,
/// and the terminal wipes it out. Any other control character is ignored.
/// Every other character joins the line and is shown.
pub open spec fn edit_char(edit: LineEdit, c: char) -> LineEdit {
    if erases(c) {
        if edit.line.len() > 0 {
            LineEdit {
                line: edit.line.drop_last(),
                echo: edit.echo.push('\x08').push(' ').push('\x08'),
            }
        } else {
            edit
        }
    } else if c <= '\x1f' {
        edit
    } else {
        LineEdit { line: edit.line.push(c), echo: edit.echo.push(c) }
    }
}

/// The line after the keys `keys`, none of which ends it, have been typed.
pub open spec fn edit_keys(edit: LineEdit, keys: Seq<u8>) -> LineEdit
    decreases keys.len(),
{
    if keys.len() == 0 {
        edit
    } else {
        edit_char(edit_keys(edit, keys.drop_last()), keys.last() as char)
    }
}

/// The finished line after the character `c`, which ends it, has been
/// typed: a line break keeps the line and shows a new line, Ctrl+C gives
/// the empty line, and Ctrl+D gives the line that holds Ctrl+D alone.
pub open spec fn end_line(edit: LineEdit, c: char) -> LineEdit {
    if c == '\n' || c == '\r' {
        LineEdit { line: edit.line, echo: edit.echo.push('\n') }
    } else if c == '\x03' {
        LineEdit { line: Seq::empty(), echo: edit.echo }
    } else {
        LineEdit { line: seq!['\x04'], echo: edit.echo }
    }
}

/// The finished line when the key at position `at` of `keys` ends it: the
/// keys before it are typed, then the line is ended.
pub open spec fn line_ended_at(edit: LineEdit, keys: Seq<u8>, at: int) -> LineEdit {
    end_line(edit_keys(edit, keys.take(at)), keys[at] as char)
}

/// Whether `at` is the position of the first key in `keys` that ends a line.
pub open spec fn first_end(keys: Seq<u8>, at: int) -> bool {
    &&& 0 <= at < keys.len()
    &&& ends_line(keys[at] as char)
    &&& forall|i: int| 0 <= i < at ==> !ends_line(keys[i] as char)
}

/// Whether no key in `keys` ends a line.
pub open spec fn no_end(keys: Seq<u8>) -> bool {
    forall|i: int| 0 <= i < keys.len() ==> !ends_line(keys[i] as char)
}

/// The line after the character `c` has been typed, whether it ends the
/// line or not.
pub open spec fn typed_char(edit: LineEdit, c: char) -> LineEdit {
    if ends_line(c) {
        end_line(edit, c)
    } else {
        edit_char(edit, c)
    }
}

/// Types the character `c` into the line `line` and adds to `echo` what
/// the terminal has to show for it. The result tells whether `c` ends the
/// line: `line` then holds the finished line, as [`end_line`] says;
/// otherwise it holds the line so far, as [`edit_char`] says.
pub fn type_char(line: &mut Vec<char>, echo: &mut Vec<char>, c: char) -> (finished: bool)
    ensures
        finished == ends_line(c),
        (LineEdit { line: final(line)@, echo: final(echo)@ }) == typed_char(
            LineEdit { line: old(line)@, echo: old(echo)@ },
            c,
        ),
{
    if c == '\n' || c == '\r' {
        echo.push('\n');
        true
    } else if c == '\x03' {
        line.clear();
        true
    } else if c == '\x04' {
        line.clear();
        line.push('\x04');
        assert(line@ == seq!['\x04']);
        true
    } else {
        if c == '\x08' || c == '\x7f' {
            if line.len() > 0 {
                line.pop();
                echo.push('\x08');
                echo.push(' ');
                echo.push('\x08');
            }
        } else if c <= '\x1f' {
        } else {
            line.push(c);
            echo.push(c);
        }
        false
    }
}

/// Whether descriptor 0 of the data is the standard input.
pub open spec fn has_stdin(data: DataState) -> bool {
    data.resources.contains_key(STDIN_FD) && data.resources[STDIN_FD] == Resource::Console(
        StdIO::Stdin,
    )
}

impl Stdin {
    fn new() -> Self {
        Stdin
    }

    /// Reads keys from the standard input of the current process, which
    /// has to be alive, into the line `line` until a key ends the line or
    /// no key is waiting. What the terminal has to show is added to `echo`.
    ///
    /// With a key that ends the line waiting, the keys before the first
    /// such key are applied as [`edit_keys`] says, the line is finished as
    /// [`end_line`] says and returned, `line` is left empty, and the keys
    /// behind stay where they are. Otherwise all waiting keys are applied
    /// and the result is `None`: the line goes on with the keys that arrive
    /// later. Nothing is read if descriptor 0 is not the standard input.
    pub fn read_line(
        &self,
        kernel: &ProcessManager,
        input: &mut InputBuffer,
        line: &mut Vec<char>,
        echo: &mut Vec<char>,
    ) -> (done: Option<String>)
        requires
            kernel.wf(),
            kernel@.alive(kernel@.current),
        ensures
            final(input).capacity() == old(input).capacity(),
            !has_stdin(kernel@.data_of(kernel@.current)) ==> {
                &&& done.is_none()
                &&& final(input)@ == old(input)@
                &&& final(line)@ == old(line)@
                &&& final(echo)@ == old(echo)@
            },
            has_stdin(kernel@.data_of(kernel@.current)) ==> match done {
                Some(text) => exists|at: int|
                    {
                        &&& #[trigger] first_end(old(input)@, at)
                        &&& (LineEdit { line: text@, echo: final(echo)@ }) == line_ended_at(
                            LineEdit { line: old(line)@, echo: old(echo)@ },
                            old(input)@,
                            at,
                        )
                        &&& final(line)@.len() == 0
                        &&& final(input)@ == old(input)@.skip(at + 1)
                    },
                None => {
                    let typed = edit_keys(
                        LineEdit { line: old(line)@, echo: old(echo)@ },
                        old(input)@,
                    );
                    &&& no_end(old(input)@)
                    &&& final(line)@ == typed.line
                    &&& final(echo)@ == typed.echo
                    &&& final(input)@.len() == 0
                },
            },
    {
        let ghost keys = input@;
        let ghost start = LineEdit { line: line@, echo: echo@ };
        let ghost data = kernel@.data_of(kernel@.current);
        let ghost mut read: int = 0;
        loop
            invariant
                kernel.wf(),
                kernel@.alive(kernel@.current),
                data == kernel@.data_of(kernel@.current),
                keys == old(input)@,
                start == (LineEdit { line: old(line)@, echo: old(echo)@ }),
                0 <= read <= keys.len(),
                input@ == keys.skip(read),
                input.capacity() == old(input).capacity(),
                no_end(keys.take(read)),
                !has_stdin(data) ==> read == 0 && line@ == old(line)@ && echo@ == old(echo)@,
                (LineEdit { line: line@, echo: echo@ }) == edit_keys(start, keys.take(read)),
            decreases input@.len(),
        {
            let c = match self.read_char(kernel, input) {
                Some(c) => c,
                None => {
                    proof {
                        if has_stdin(data) {
                            assert(keys.take(read) == keys);
                        } else {
                            assert(keys.skip(0) == keys);
                        }
                    }
                    return None;
                },
            };
            proof {
                assert(has_stdin(data));
                assert(c == keys[read] as char);
                assert(keys.skip(read).drop_first() == keys.skip(read + 1));
                assert(keys.take(read + 1).drop_last() == keys.take(read));
            }
            let ghost before = LineEdit { line: line@, echo: echo@ };
            if type_char(line, echo, c) {
                let text = string_of(line);
                line.clear();
                proof {
                    assert forall|i: int| 0 <= i < read implies !ends_line(keys[i] as char) by {
                        assert(keys.take(read)[i] == keys[i]);
                    }
                    assert(first_end(keys, read));
                    assert((LineEdit { line: text@, echo: echo@ }) == line_ended_at(
                        start,
                        keys,
                        read,
                    ));
                }
                return Some(text);
            }
            proof {
                assert((LineEdit { line: line@, echo: echo@ }) == edit_char(before, c));
            }
            proof {
                read = read + 1;
            }
        }
    }

    /// Reads one character from the standard input of the current process,
    /// which has to be alive. The result is the oldest waiting key, taken
    /// as a character, if descriptor 0 is the standard input and a key is
    /// waiting, and `None` otherwise.
    pub fn read_char(&self, kernel: &ProcessManager, input: &mut InputBuffer) -> (key: Option<char>)
        requires
            kernel.wf(),
            kernel@.alive(kernel@.current),
        ensures
            final(input).capacity() == old(input).capacity(),
            kernel@.data_of(kernel@.current).read_takes_key(
                STDIN_FD,
                old(input)@,
                CHAR_BUFFER_SIZE as nat,
            ) ==> key == Some(old(input)@[0] as char) && final(input)@ == old(input)@.drop_first(),
            !kernel@.data_of(kernel@.current).read_takes_key(
                STDIN_FD,
                old(input)@,
                CHAR_BUFFER_SIZE as nat,
            ) ==> key.is_none() && final(input)@ == old(input)@,
    {
        let mut buf: Vec<u8> = vec![0u8, 0u8, 0u8, 0u8];
        let count = kernel.read(STDIN_FD, input, buf.as_mut_slice());
        if count > 0 {
            Some(buf[0] as char)
        } else {
            None
        }
    }
}

impl Stdout {
    fn new() -> Self {
        Stdout
    }

    /// Writes `s` to the standard output of the current process, which has
    /// to be alive: the number of bytes that descriptor 1 accepts, or -1.
    pub fn write(&self, kernel: &ProcessManager, s: &str) -> (result: isize)
        requires
            kernel.wf(),
            kernel@.alive(kernel@.current),
        ensures
            result == kernel@.data_of(kernel@.current).write_result(
                STDOUT_FD,
                s.spec_bytes().len() as usize,
            ),
    {
        kernel.write(STDOUT_FD, s.as_bytes())
    }
}

impl Stderr {
    fn new() -> Self {
        Stderr
    }

    /// Writes `s` to the standard error stream of the current process,
    /// which has to be alive: the number of bytes that descriptor 2
    /// accepts, or -1.
    pub fn write(&self, kernel: &ProcessManager, s: &str) -> (result: isize)
        requires
            kernel.wf(),
            kernel@.alive(kernel@.current),
        ensures
            result == kernel@.data_of(kernel@.current).write_result(
                STDERR_FD,
                s.spec_bytes().len() as usize,
            ),
    {
        kernel.write(STDERR_FD, s.as_bytes())
    }
}

/// The standard input.
pub fn stdin() -> Stdin {
    Stdin::new()
}

/// The standard output.
pub fn stdout() -> Stdout {
    Stdout::new()
}

/// The standard error stream.
pub fn stderr() -> Stderr {
    Stderr::new()
}

/// The names of the programs that can be run; see [`ProcessManager::list_app`].
pub fn list_app(kernel: &ProcessManager) -> (names: String)
    ensures
        names@ == kernel@.app_names(),
{
    kernel.list_app()
}

/// The process list; see [`ProcessManager::print_process_list`].
pub fn list_proc(kernel: &ProcessManager) -> (rows: Vec<ProcessRow>)
    requires
        kernel.wf(),
    ensures
        rows@.len() == kernel@.rows_below(kernel@.next_pid as int).len(),
        forall|i: int| 0 <= i < rows@.len() ==> (#[trigger] rows@[i])@ == kernel@.rows_below(
            kernel@.next_pid as int,
        )[i],
{
    kernel.print_process_list()
}

/// The modulus of [`factorial`].
pub const FACTORIAL_MOD: u64 = 1000000007;

/// Largest argument that [`factorial`] takes.
pub const FACTORIAL_MAX: u64 = 1000000;

/// The factorial of `n`, reduced modulo [`FACTORIAL_MOD`] after every step.
pub open spec fn factorial_mod(n: nat) -> nat
    decreases n,
{
    if n == 0 {
        1
    } else {
        (n * factorial_mod((n - 1) as nat)) % (FACTORIAL_MOD as nat)
    }
}

/// The factorial of `n` modulo [`FACTORIAL_MOD`].
pub fn factorial(n: u64) -> (result: u64)
    requires
        n <= FACTORIAL_MAX,
    ensures
        result == factorial_mod(n as nat),
        result <= FACTORIAL_MOD,
    decreases n,
{
    if n == 0 {
        1
    } else {
        let rest = factorial(n - 1);
        assert(n * rest <= FACTORIAL_MAX * FACTORIAL_MOD) by (nonlinear_arith)
            requires
                n <= FACTORIAL_MAX,
                rest <= FACTORIAL_MOD,
        ;
        n * rest % FACTORIAL_MOD
    }
}

} // verus!
