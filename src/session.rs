//! The decisions a terminal session makes around each of its I/O calls: how
//! a read's outcome becomes bytes, which error a failed write, flush, wait or
//! kill becomes, when the cached size changes, and whether the child runs.
//! The calls themselves are made by the host, which hands their outcomes here.

use portable_pty::ExitStatus;
use vstd::prelude::*;

use crate::error::PtyError;
use crate::size::PtySize;

verus! {

#[verifier::external_type_specification]
#[verifier::external_body]
pub struct ExExitStatus(ExitStatus);

/// Size of the window of one read of the child's output.
pub const READ_WINDOW: usize = 8192;

/// What one read of the child's output came to.
pub enum ReadOutcome {
    /// This many bytes were placed at the start of the buffer (none: end of stream).
    Bytes(usize),
    /// A non-blocking source had nothing to give right now.
    WouldBlock,
    /// Any other failure.
    Failed(std::io::Error),
}

/// Whether a failure's kind is `std::io::ErrorKind::WouldBlock`.
pub uninterp spec fn would_block(e: std::io::Error) -> bool;

/// The numeric status an exit status was made with.
pub uninterp spec fn exit_code_of(s: ExitStatus) -> u32;

/// Relies on `std::io::Error::kind`: tells a would-block condition apart
/// from every other read failure.
#[verifier::external_body]
fn classify_read(res: Result<usize, std::io::Error>) -> (r: ReadOutcome)
    ensures
        res matches Ok(n) ==> r == ReadOutcome::Bytes(n),
        res matches Err(e) ==> (would_block(e) ==> r is WouldBlock),
        res matches Err(e) ==> (!would_block(e) ==> r == ReadOutcome::Failed(e)),
{
    match res {
        Ok(n) => ReadOutcome::Bytes(n),
        Err(e) if e.kind() == std::io::ErrorKind::WouldBlock => ReadOutcome::WouldBlock,
        Err(e) => ReadOutcome::Failed(e),
    }
}

/// Relies on `portable_pty::ExitStatus::exit_code`: the numeric status, a
/// field of the status.
#[verifier::external_body]
fn exit_code(status: &ExitStatus) -> (r: u32)
    ensures
        r == exit_code_of(*status),
{
    status.exit_code()
}

/// A zeroed buffer of one read window.
pub fn read_buffer() -> (r: Vec<u8>)
    ensures
        r@.len() == READ_WINDOW,
        forall|i: int| 0 <= i < r@.len() ==> r@[i] == 0u8,
{
    vec![0u8; READ_WINDOW]
}

/// The bytes a read hands to its caller. End of stream and would-block both
/// give an empty success; only a genuine failure is an error.
pub fn settle_read(buffer: Vec<u8>, outcome: ReadOutcome) -> (r: Result<Vec<u8>, PtyError>)
    requires
        outcome matches ReadOutcome::Bytes(n) ==> n <= buffer@.len(),
    ensures
        outcome matches ReadOutcome::Bytes(n) ==> (r matches Ok(v) && v@ == buffer@.take(n as int)),
        outcome is WouldBlock ==> (r matches Ok(v) && v@.len() == 0),
        outcome matches ReadOutcome::Failed(e) ==> r == Err::<Vec<u8>, PtyError>(PtyError::ReadError(e)),
{
    match outcome {
        ReadOutcome::Bytes(n) => {
            let mut buffer = buffer;
            buffer.truncate(n);
            Ok(buffer)
        },
        ReadOutcome::WouldBlock => Ok(Vec::new()),
        ReadOutcome::Failed(e) => Err(PtyError::ReadError(e)),
    }
}

/// The bytes a read hands to its caller, from the raw result of reading
/// into `buffer`: the first `n` bytes on success (none at end of stream), no
/// bytes when the source would block, a read error carrying the failure
/// otherwise.
pub fn finish_read(buffer: Vec<u8>, res: Result<usize, std::io::Error>) -> (r: Result<Vec<u8>, PtyError>)
    requires
        res matches Ok(n) ==> n <= buffer@.len(),
    ensures
        res matches Ok(n) ==> (r matches Ok(v) && v@ == buffer@.take(n as int)),
        res matches Err(e) ==> (would_block(e) ==> (r matches Ok(v) && v@.len() == 0)),
        res matches Err(e) ==> (!would_block(e) ==> r == Err::<Vec<u8>, PtyError>(
            PtyError::ReadError(e),
        )),
{
    let outcome = classify_read(res);
    settle_read(buffer, outcome)
}

/// The outcome of allocating the terminal or taking one of its ends: the
/// resource itself, or a create error carrying the failure.
pub fn settle_create<T>(res: Result<T, std::io::Error>) -> (r: Result<T, PtyError>)
    ensures
        res matches Ok(v) ==> r == Ok::<T, PtyError>(v),
        res matches Err(e) ==> r == Err::<T, PtyError>(PtyError::CreateError(e)),
{
    match res {
        Ok(v) => Ok(v),
        Err(e) => Err(PtyError::CreateError(e)),
    }
}

/// The outcome of starting `command`: the child, or a spawn error naming the
/// command and carrying the failure.
pub fn settle_spawn<T>(command: &str, res: Result<T, std::io::Error>) -> (r: Result<T, PtyError>)
    ensures
        res matches Ok(v) ==> r == Ok::<T, PtyError>(v),
        res matches Err(e) ==> (r matches Err(PtyError::SpawnError { command: c, cause: k }) && c@
            == command@ && k == e),
{
    match res {
        Ok(v) => Ok(v),
        Err(e) => Err(PtyError::spawn(command, e)),
    }
}

/// The result of a write once `write_all` has returned.
pub fn settle_write(res: Result<(), std::io::Error>) -> (r: Result<(), PtyError>)
    ensures
        res is Ok <==> r is Ok,
        res matches Err(e) ==> r == Err::<(), PtyError>(PtyError::WriteError(e)),
{
    match res {
        Ok(()) => Ok(()),
        Err(e) => Err(PtyError::WriteError(e)),
    }
}

/// The result of a write once its flush has returned.
pub fn settle_flush(res: Result<(), std::io::Error>) -> (r: Result<(), PtyError>)
    ensures
        res is Ok <==> r is Ok,
        res matches Err(e) ==> r == Err::<(), PtyError>(PtyError::FlushError(e)),
{
    match res {
        Ok(()) => Ok(()),
        Err(e) => Err(PtyError::FlushError(e)),
    }
}

/// Brings the cached size in line with a resize to `requested`: it changes
/// exactly when the terminal accepted the new dimensions.
pub fn settle_resize(size: &mut PtySize, requested: PtySize, res: Result<(), std::io::Error>) -> (r:
    Result<(), PtyError>)
    ensures
        res is Ok <==> r is Ok,
        res is Ok ==> *final(size) == requested,
        res matches Err(e) ==> *final(size) == *old(size) && r == Err::<(), PtyError>(
            PtyError::ResizeError { rows: requested.rows, cols: requested.cols, cause: e },
        ),
{
    match res {
        Ok(()) => {
            *size = requested;
            Ok(())
        },
        Err(e) => Err(PtyError::ResizeError { rows: requested.rows, cols: requested.cols, cause: e }),
    }
}

/// Whether the child still runs, from a non-blocking probe of its status:
/// only a successful probe that found no exit status says so.
pub fn running_from_probe(probe: &Result<Option<ExitStatus>, std::io::Error>) -> (r: bool)
    ensures
        r == (probe matches Ok(s) && s is None),
{
    match probe {
        Ok(None) => true,
        _ => false,
    }
}

/// The exit code a wait hands to its caller: the code of the status the
/// child ended with.
pub fn settle_wait(res: Result<ExitStatus, std::io::Error>) -> (r: Result<u32, PtyError>)
    ensures
        res matches Ok(s) ==> r == Ok::<u32, PtyError>(exit_code_of(s)),
        res matches Err(e) ==> r == Err::<u32, PtyError>(PtyError::WaitError(e)),
{
    match res {
        Ok(status) => Ok(exit_code(&status)),
        Err(e) => Err(PtyError::WaitError(e)),
    }
}

/// The result of a forced termination.
pub fn settle_kill(res: Result<(), std::io::Error>) -> (r: Result<(), PtyError>)
    ensures
        res is Ok <==> r is Ok,
        res matches Err(e) ==> r == Err::<(), PtyError>(PtyError::KillError(e)),
{
    match res {
        Ok(()) => Ok(()),
        Err(e) => Err(PtyError::KillError(e)),
    }
}

} // verus!
