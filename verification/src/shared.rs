//! One writer for the whole program: every write takes the lock, writes, and
//! lets the lock go.
//!
//! A caller that may have interrupted a holder of the lock, such as a fault
//! handler, must not wait for it: the holder cannot run on, so the wait would
//! never end. Such a caller writes through a [`FaultWriter`], which never
//! waits: where the lock is taken, it takes the display over with a writer
//! of its own, on a blank screen. The earlier output is then lost, the
//! report is not.

use vstd::prelude::*;
use vstd::string::StringSliceAdditionalSpecFns;
use crate::glyph::DisplayCell;
use crate::screen::WriterState;
use crate::writer::{Buffer, Writer};

verus! {

/// `spin::mutex::Mutex`, a spin lock around a value. Nothing is said of what
/// it holds.
#[verifier::external_type_specification]
#[verifier::external_body]
#[verifier::reject_recursive_types(T)]
#[verifier::reject_recursive_types(R)]
pub struct ExMutex<T: ?Sized, R>(spin::mutex::Mutex<T, R>);

/// `spin::mutex::MutexGuard`, the proof of a taken lock; dropping it lets the
/// lock go.
#[verifier::external_type_specification]
#[verifier::external_body]
#[verifier::reject_recursive_types(T)]
pub struct ExMutexGuard<'a, T: 'a + ?Sized>(spin::mutex::MutexGuard<'a, T>);

/// `spin::relax::Spin`, the way a waiting `Mutex` passes its time. It has no
/// contents.
#[verifier::external_type_specification]
#[verifier::external_body]
pub struct ExSpin(spin::relax::Spin);

/// Calls `spin::mutex::Mutex::lock`, which spins until the lock is free and
/// then takes it. It returns only once the lock could be taken. Nothing is
/// claimed of the writer behind the guard.
#[verifier::external_body]
fn lock<'a>(shared: &'a spin::mutex::Mutex<Writer>) -> (guard: spin::mutex::MutexGuard<
    'a,
    Writer,
>) {
    shared.lock()
}

/// Calls `spin::mutex::Mutex::try_lock`, which takes the lock if it is free
/// and returns `None` at once if it is not. Which of the two happens depends
/// on the moment, so nothing is claimed of the result.
#[verifier::external_body]
fn try_lock<'a>(shared: &'a spin::mutex::Mutex<Writer>) -> (guard: Option<
    spin::mutex::MutexGuard<'a, Writer>,
>) {
    shared.try_lock()
}

/// The writer behind the lock that a guard holds: what the guard lends out
/// when it is dereferenced.
pub uninterp spec fn held_writer(guard: spin::mutex::MutexGuard<'_, Writer>) -> WriterState;

/// Calls `DerefMut::deref_mut` of `spin::mutex::MutexGuard`, which lends the
/// value behind the lock. The contract names that value: the reference
/// starts out at the writer that the guard holds, and the guard holds
/// whatever the reference is left at.
#[verifier::external_body]
fn writer_of<'a, 'b>(guard: &'a mut spin::mutex::MutexGuard<'b, Writer>) -> (writer:
    &'a mut Writer)
    ensures
        writer@ == held_writer(*old(guard)),
        held_writer(*final(guard)) == final(writer)@,
{
    core::ops::DerefMut::deref_mut(guard)
}

/// Whether the rows are what some well-formed writer shows after writing the
/// bytes.
pub open spec fn shows_written(rows: Seq<Seq<DisplayCell>>, bytes: Seq<u8>) -> bool {
    exists|before: WriterState| before.wf() && rows == #[trigger] before.write_bytes(bytes).rows
}

/// Writes a string to the writer behind a taken lock and returns the display
/// as the write left it. The lock stays taken until the guard is dropped.
pub fn write_held(guard: &mut spin::mutex::MutexGuard<'_, Writer>, s: &str) -> (shown: Buffer)
    ensures
        held_writer(*old(guard)).wf(),
        held_writer(*final(guard)) == held_writer(*old(guard)).write_bytes(s.spec_bytes()),
        shown@ == held_writer(*final(guard)).rows,
{
    let writer = writer_of(guard);
    proof {
        use_type_invariant(&*writer);
    }
    writer.write_string(s);
    *writer.buffer()
}

/// Waits for the lock, writes a string to the shared writer, and lets the
/// lock go. Returns the display as the write left it.
///
/// The wait ends when the holder lets go. Do not call this where the holder
/// cannot run until the call returns.
pub fn write_shared(shared: &spin::mutex::Mutex<Writer>, s: &str) -> (shown: Buffer)
    ensures
        shows_written(shown@, s.spec_bytes()),
{
    let mut guard = lock(shared);
    write_held(&mut guard, s)
}

/// The way of a fault report to the display: through the shared writer
/// while its lock is free, and from the first time that it is not, through a
/// writer of its own.
pub struct FaultWriter {
    own: Option<Writer>,
}

impl View for FaultWriter {
    type V = Option<WriterState>;

    /// The state of the writer that has taken the display over, or `None`
    /// while the reports still go through the shared writer.
    closed spec fn view(&self) -> Option<WriterState> {
        match self.own {
            Some(own) => Some(own@),
            None => None,
        }
    }
}

impl FaultWriter {
    /// A fault writer that has not taken the display over.
    pub fn new() -> (fault: FaultWriter)
        ensures
            fault@ is None,
    {
        FaultWriter { own: None }
    }

    /// Whether this writer has taken the display over.
    pub fn has_taken_over(&self) -> (taken_over: bool)
        ensures
            taken_over == (self@ is Some),
    {
        self.own.is_some()
    }

    /// Writes a string where an attempt at the lock has been made, and
    /// returns the display as the write left it.
    ///
    /// A writer that has taken the display over keeps it, whatever the
    /// attempt gave. Otherwise the string goes through the lock if it was
    /// taken, and to a fresh writer, which takes the display over, if not.
    pub fn write_with(
        &mut self,
        guard: Option<spin::mutex::MutexGuard<'_, Writer>>,
        s: &str,
    ) -> (shown: Buffer)
        ensures
            old(self)@ matches Some(own) ==> final(self)@ == Some(own.write_bytes(s.spec_bytes())),
            old(self)@ is None && guard is None ==> final(self)@ == Some(
                WriterState::initial().write_bytes(s.spec_bytes()),
            ),
            old(self)@ is None && guard is Some ==> final(self)@ is None,
            final(self)@ matches Some(own) ==> shown@ == own.rows,
            final(self)@ is None ==> (guard matches Some(held) && held_writer(held).wf() && shown@
                == held_writer(held).write_bytes(s.spec_bytes()).rows),
    {
        let mut own = match self.own.take() {
            Some(own) => own,
            None => match guard {
                Some(held) => {
                    let mut held = held;
                    return write_held(&mut held, s);
                },
                None => Writer::new(),
            },
        };
        own.write_string(s);
        let shown = *own.buffer();
        self.own = Some(own);
        shown
    }

    /// Writes a string without ever waiting for the lock, and returns the
    /// display as the write left it: through the shared writer if its lock
    /// is free and this writer has not taken the display over, through this
    /// writer otherwise.
    pub fn write_string(&mut self, shared: &spin::mutex::Mutex<Writer>, s: &str) -> (shown: Buffer)
        ensures
            old(self)@ matches Some(own) ==> final(self)@ == Some(own.write_bytes(s.spec_bytes())),
            old(self)@ is None ==> final(self)@ is None || final(self)@ == Some(
                WriterState::initial().write_bytes(s.spec_bytes()),
            ),
            final(self)@ matches Some(own) ==> shown@ == own.rows,
            final(self)@ is None ==> shows_written(shown@, s.spec_bytes()),
    {
        if self.own.is_some() {
            self.write_with(None, s)
        } else {
            self.write_with(try_lock(shared), s)
        }
    }
}

} // verus!
