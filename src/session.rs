//! The four stream operations as sessions: each is a short exchange with the
//! file API (open, size query, transfer, close, or a single delete) whose every
//! decision is taken here. The caller performs each [`Action`] and reports
//! what the backend answered as an [`Event`].

use vstd::prelude::*;

verus! {

/// The four operations on a stream.
#[derive(PartialEq, Eq, Structural, Clone, Copy, Debug)]
pub enum Operation {
    /// Create the stream or replace its content.
    Replace,
    /// Read the whole stream.
    ReadAll,
    /// Add bytes at the end of the stream, creating it if absent.
    Append,
    /// Remove the stream.
    Delete,
}

/// What the handle is opened for.
#[derive(PartialEq, Eq, Structural, Clone, Copy, Debug)]
pub enum Access {
    Write,
    Read,
    /// Writes land at the current end of the stream.
    AppendData,
}

/// What other openers of the same stream may do meanwhile.
#[derive(PartialEq, Eq, Structural, Clone, Copy, Debug)]
pub enum Sharing {
    Exclusive,
    SharedRead,
}

/// What happens when the stream exists, or does not.
#[derive(PartialEq, Eq, Structural, Clone, Copy, Debug)]
pub enum Disposition {
    /// Create if absent, truncate if present.
    CreateAlways,
    /// Fail if absent.
    OpenExisting,
    /// Create if absent, open as it is if present.
    OpenAlways,
}

/// The parameters of an open request.
#[derive(PartialEq, Eq, Structural, Clone, Copy, Debug)]
pub struct OpenMode {
    pub access: Access,
    pub sharing: Sharing,
    pub disposition: Disposition,
}

/// Why an operation failed. The `i32` values are the backend's result codes.
#[derive(PartialEq, Eq, Structural, Clone, Copy, Debug)]
pub enum AdsError {
    /// The composite name is too long to be handed to the backend.
    NameTooLong,
    /// The data does not fit a single transfer, whose length is 32-bit.
    TooLarge,
    /// The handle could not be acquired.
    Open(i32),
    /// The stream, or the file it belongs to, does not exist.
    NotFound(i32),
    /// The stream's size could not be determined.
    SizeQuery(i32),
    /// The reported size is negative or does not fit a single transfer.
    BadSize(i64),
    Read(i32),
    Write(i32),
    /// The handle could not be released after an otherwise successful run.
    Close(i32),
    Delete(i32),
}

/// What an operation ends with: the transfer count, or why it failed.
pub type Outcome = Result<u32, AdsError>;

/// The next thing the caller performs on the backend.
#[derive(PartialEq, Eq, Clone, Copy, Debug)]
pub enum Action {
    /// Acquire a handle on the composite name.
    Open(OpenMode),
    /// Ask the size of the opened stream.
    QuerySize,
    /// One read transfer into a buffer of this many bytes.
    Read(u32),
    /// One write transfer of the whole data, which is this many bytes.
    Write(u32),
    /// Release the handle.
    Close,
    /// Remove the stream by name.
    Delete,
    /// The operation is over, with this outcome.
    Finish(Outcome),
}

/// What the backend answered to the last action.
#[derive(PartialEq, Eq, Structural, Clone, Copy, Debug)]
pub enum Event {
    Opened,
    OpenFailed(i32),
    SizeQueried(i64),
    SizeQueryFailed(i32),
    Transferred(u32),
    TransferFailed(i32),
    Closed,
    CloseFailed(i32),
    Deleted,
    DeleteFailed(i32),
}

/// Where a session stands.
#[derive(PartialEq, Eq, Clone, Copy, Debug)]
pub enum Phase {
    /// An open was requested.
    Opening,
    /// A handle is held and its size was asked.
    Sizing,
    /// A handle is held and a transfer of this many bytes was requested.
    Transferring(u32),
    /// A release was requested; the outcome so far is kept.
    Closing(Outcome),
    /// A delete was requested.
    Deleting,
    /// The operation is over.
    Done(Outcome),
}

/// One run of an operation.
#[derive(PartialEq, Eq, Clone, Copy, Debug)]
pub struct Session {
    pub op: Operation,
    /// How many bytes a write transfer carries; zero for the other operations.
    pub len: u32,
    pub phase: Phase,
}

/// Result code of a failure because a file does not exist
/// (`HRESULT_FROM_WIN32(ERROR_FILE_NOT_FOUND)`, `0x80070002`).
pub const FILE_NOT_FOUND: i32 = -2147024894;

/// Result code of a failure because a path does not exist
/// (`HRESULT_FROM_WIN32(ERROR_PATH_NOT_FOUND)`, `0x80070003`).
pub const PATH_NOT_FOUND: i32 = -2147024893;

/// Whether an operation writes data.
pub open spec fn writes(op: Operation) -> bool {
    op is Replace || op is Append
}

/// The open request of each operation that opens a handle.
pub open spec fn open_mode(op: Operation) -> OpenMode {
    match op {
        Operation::ReadAll => OpenMode {
            access: Access::Read,
            sharing: Sharing::SharedRead,
            disposition: Disposition::OpenExisting,
        },
        Operation::Append => OpenMode {
            access: Access::AppendData,
            sharing: Sharing::Exclusive,
            disposition: Disposition::OpenAlways,
        },
        _ => OpenMode {
            access: Access::Write,
            sharing: Sharing::Exclusive,
            disposition: Disposition::CreateAlways,
        },
    }
}

pub open spec fn is_not_found(code: i32) -> bool {
    code == FILE_NOT_FOUND || code == PATH_NOT_FOUND
}

/// The failure that a failed open means for an operation.
pub open spec fn open_failure(op: Operation, code: i32) -> AdsError {
    if op is ReadAll && is_not_found(code) {
        AdsError::NotFound(code)
    } else {
        AdsError::Open(code)
    }
}

/// The failure that a failed transfer means for an operation.
pub open spec fn transfer_failure(op: Operation, code: i32) -> AdsError {
    if op is ReadAll {
        AdsError::Read(code)
    } else {
        AdsError::Write(code)
    }
}

/// Whether a phase holds an acquired handle.
pub open spec fn holds_handle(p: Phase) -> bool {
    p is Sizing || p is Transferring || p is Closing
}

/// Whether `e` answers the action that led to phase `p`.
pub open spec fn accepts(op: Operation, p: Phase, e: Event) -> bool {
    match p {
        Phase::Opening => e is Opened || e is OpenFailed,
        Phase::Sizing => op is ReadAll && (e is SizeQueried || e is SizeQueryFailed),
        Phase::Transferring(_) => e is Transferred || e is TransferFailed,
        Phase::Closing(_) => e is Closed || e is CloseFailed,
        Phase::Deleting => e is Deleted || e is DeleteFailed,
        Phase::Done(_) => false,
    }
}

/// Asks for the release of the handle, keeping `r` as the outcome so far.
pub open spec fn close_with(r: Outcome) -> (Phase, Action) {
    (Phase::Closing(r), Action::Close)
}

/// Ends the operation with `r`.
pub open spec fn finish_with(r: Outcome) -> (Phase, Action) {
    (Phase::Done(r), Action::Finish(r))
}

/// The protocol: the phase and action that follow event `e` in phase `p`.
/// Every failure while a handle is held goes through a release first; a
/// failure of that release replaces a success, never an earlier failure. A
/// transfer never counts more bytes than were asked for.
pub open spec fn transition(op: Operation, len: u32, p: Phase, e: Event) -> (Phase, Action) {
    match (p, e) {
        (Phase::Opening, Event::Opened) => if op is ReadAll {
            (Phase::Sizing, Action::QuerySize)
        } else {
            (Phase::Transferring(len), Action::Write(len))
        },
        (Phase::Opening, Event::OpenFailed(c)) => finish_with(Err(open_failure(op, c))),
        (Phase::Sizing, Event::SizeQueried(s)) => if 0 <= s <= u32::MAX {
            (Phase::Transferring(s as u32), Action::Read(s as u32))
        } else {
            close_with(Err(AdsError::BadSize(s)))
        },
        (Phase::Sizing, Event::SizeQueryFailed(c)) => close_with(Err(AdsError::SizeQuery(c))),
        (Phase::Transferring(k), Event::Transferred(n)) => if n > k {
            close_with(Ok(k))
        } else {
            close_with(Ok(n))
        },
        (Phase::Transferring(_), Event::TransferFailed(c)) => close_with(
            Err(transfer_failure(op, c)),
        ),
        (Phase::Closing(r), Event::Closed) => finish_with(r),
        (Phase::Closing(r), Event::CloseFailed(c)) => if r is Ok {
            finish_with(Err(AdsError::Close(c)))
        } else {
            finish_with(r)
        },
        (Phase::Deleting, Event::Deleted) => finish_with(Ok(0)),
        (Phase::Deleting, Event::DeleteFailed(c)) => finish_with(Err(AdsError::Delete(c))),
        // not reached on accepted events
        _ => (p, Action::Close),
    }
}

/// The first phase and action of an operation whose data is `data_len` bytes
/// long (zero for reads and deletes).
pub open spec fn initial(op: Operation, data_len: nat) -> (Phase, Action) {
    if op is Delete {
        (Phase::Deleting, Action::Delete)
    } else if writes(op) && data_len > u32::MAX {
        finish_with(Err(AdsError::TooLarge))
    } else {
        (Phase::Opening, Action::Open(open_mode(op)))
    }
}

fn mode_of(op: Operation) -> (r: OpenMode)
    ensures
        r == open_mode(op),
{
    match op {
        Operation::ReadAll => OpenMode {
            access: Access::Read,
            sharing: Sharing::SharedRead,
            disposition: Disposition::OpenExisting,
        },
        Operation::Append => OpenMode {
            access: Access::AppendData,
            sharing: Sharing::Exclusive,
            disposition: Disposition::OpenAlways,
        },
        _ => OpenMode {
            access: Access::Write,
            sharing: Sharing::Exclusive,
            disposition: Disposition::CreateAlways,
        },
    }
}

/// Whether outcome `r` fits an operation: a write never reports more bytes
/// than its data holds.
pub open spec fn outcome_fits(op: Operation, len: u32, r: Outcome) -> bool {
    match r {
        Ok(w) => writes(op) ==> w <= len,
        Err(_) => true,
    }
}

impl Session {
    /// The phases that each operation can be in, and the write length that
    /// only writes carry.
    pub open spec fn wf(&self) -> bool {
        &&& (!writes(self.op) ==> self.len == 0)
        &&& match self.phase {
            Phase::Opening => !(self.op is Delete),
            Phase::Sizing => self.op is ReadAll,
            Phase::Transferring(k) => !(self.op is Delete) && (writes(self.op) ==> k == self.len),
            Phase::Closing(r) => !(self.op is Delete) && outcome_fits(self.op, self.len, r),
            Phase::Deleting => self.op is Delete,
            Phase::Done(r) => outcome_fits(self.op, self.len, r),
        }
    }

    pub open spec fn accepts_event(&self, e: Event) -> bool {
        accepts(self.op, self.phase, e)
    }

    pub open spec fn is_done(&self) -> bool {
        self.phase is Done
    }

    /// Starts operation `op` on `data_len` bytes of data (any value for a
    /// read or a delete, which carry none), and gives its first action.
    pub fn begin(op: Operation, data_len: usize) -> (r: (Session, Action))
        ensures
            r.0.wf(),
            r.0.op == op,
            (r.0.phase, r.1) == initial(op, data_len as nat),
            r.0.len == (if writes(op) && data_len <= u32::MAX { data_len as u32 } else { 0u32 }),
    {
        let len: u32 = if (op == Operation::Replace || op == Operation::Append) && data_len
            <= 0xffff_ffffusize {
            data_len as u32
        } else {
            0
        };
        if op == Operation::Delete {
            (Session { op, len, phase: Phase::Deleting }, Action::Delete)
        } else if (op == Operation::Replace || op == Operation::Append) && data_len
            > 0xffff_ffffusize {
            let r = Err(AdsError::TooLarge);
            (Session { op, len, phase: Phase::Done(r) }, Action::Finish(r))
        } else {
            (Session { op, len, phase: Phase::Opening }, Action::Open(mode_of(op)))
        }
    }

    /// Whether the session is well formed and `e` is an answer that it waits for.
    pub fn accepts(&self, e: &Event) -> (r: bool)
        ensures
            r == (self.wf() && self.accepts_event(*e)),
    {
        let writes = self.op == Operation::Replace || self.op == Operation::Append;
        if !writes && self.len != 0 {
            return false;
        }
        let fits = |r: Outcome| -> (b: bool)
            ensures
                b == outcome_fits(self.op, self.len, r),
            {
                match r {
                    Ok(w) => !writes || w <= self.len,
                    Err(_) => true,
                }
            };
        let shape = match self.phase {
            Phase::Opening => self.op != Operation::Delete,
            Phase::Sizing => self.op == Operation::ReadAll,
            Phase::Transferring(k) => self.op != Operation::Delete && (!writes || k == self.len),
            Phase::Closing(r) => self.op != Operation::Delete && fits(r),
            Phase::Deleting => self.op == Operation::Delete,
            Phase::Done(r) => fits(r),
        };
        if !shape {
            return false;
        }
        match self.phase {
            Phase::Opening => matches!(e, Event::Opened | Event::OpenFailed(_)),
            Phase::Sizing => self.op == Operation::ReadAll && matches!(
                e,
                Event::SizeQueried(_) | Event::SizeQueryFailed(_)
            ),
            Phase::Transferring(_) => matches!(e, Event::Transferred(_) | Event::TransferFailed(_)),
            Phase::Closing(_) => matches!(e, Event::Closed | Event::CloseFailed(_)),
            Phase::Deleting => matches!(e, Event::Deleted | Event::DeleteFailed(_)),
            Phase::Done(_) => false,
        }
    }

    /// Takes the backend's answer `e` to the last action and gives the next one.
    pub fn step(&mut self, e: Event) -> (a: Action)
        requires
            old(self).wf(),
            old(self).accepts_event(e),
        ensures
            final(self).wf(),
            final(self).op == old(self).op,
            final(self).len == old(self).len,
            (final(self).phase, a) == transition(old(self).op, old(self).len, old(self).phase, e),
            writes(old(self).op) ==> (a matches Action::Finish(Ok(w)) ==> w <= old(self).len),
    {
        let op = self.op;
        let (p, a) = match (self.phase, e) {
            (Phase::Opening, Event::Opened) => if op == Operation::ReadAll {
                (Phase::Sizing, Action::QuerySize)
            } else {
                (Phase::Transferring(self.len), Action::Write(self.len))
            },
            (Phase::Opening, Event::OpenFailed(c)) => {
                let f = if op == Operation::ReadAll && (c == FILE_NOT_FOUND || c
                    == PATH_NOT_FOUND) {
                    AdsError::NotFound(c)
                } else {
                    AdsError::Open(c)
                };
                (Phase::Done(Err(f)), Action::Finish(Err(f)))
            },
            (Phase::Sizing, Event::SizeQueried(s)) => if 0 <= s && s <= 0xffff_ffffi64 {
                (Phase::Transferring(s as u32), Action::Read(s as u32))
            } else {
                (Phase::Closing(Err(AdsError::BadSize(s))), Action::Close)
            },
            (Phase::Sizing, Event::SizeQueryFailed(c)) => (
                Phase::Closing(Err(AdsError::SizeQuery(c))),
                Action::Close,
            ),
            (Phase::Transferring(k), Event::Transferred(n)) => if n > k {
                (Phase::Closing(Ok(k)), Action::Close)
            } else {
                (Phase::Closing(Ok(n)), Action::Close)
            },
            (Phase::Transferring(_), Event::TransferFailed(c)) => {
                let f = if op == Operation::ReadAll {
                    AdsError::Read(c)
                } else {
                    AdsError::Write(c)
                };
                (Phase::Closing(Err(f)), Action::Close)
            },
            (Phase::Closing(r), Event::Closed) => (Phase::Done(r), Action::Finish(r)),
            (Phase::Closing(r), Event::CloseFailed(c)) => {
                let r2 = if r.is_ok() {
                    Err(AdsError::Close(c))
                } else {
                    r
                };
                (Phase::Done(r2), Action::Finish(r2))
            },
            (Phase::Deleting, Event::Deleted) => (Phase::Done(Ok(0)), Action::Finish(Ok(0))),
            (Phase::Deleting, Event::DeleteFailed(c)) => {
                let f = Err(AdsError::Delete(c));
                (Phase::Done(f), Action::Finish(f))
            },
            (p, _) => (p, Action::Close),
        };
        self.phase = p;
        a
    }
}

/// A zero-filled buffer of `len` bytes for one read transfer.
pub fn read_buffer(len: u32) -> (r: Vec<u8>)
    ensures
        r@ == Seq::new(len as nat, |i: int| 0u8),
{
    let r = vec![0u8; len as usize];
    assert(r@ =~= Seq::new(len as nat, |i: int| 0u8));
    r
}

/// Keeps only the first `n` bytes of `buf`, the part that a transfer filled.
pub fn keep_transferred(buf: &mut Vec<u8>, n: u32)
    ensures
        final(buf)@ == old(buf)@.take(
            if n as int <= old(buf)@.len() { n as int } else { old(buf)@.len() as int },
        ),
{
    if (n as usize) < buf.len() {
        buf.truncate(n as usize);
    }
    assert(final(buf)@ =~= old(buf)@.take(
        if n as int <= old(buf)@.len() { n as int } else { old(buf)@.len() as int },
    ));
}

/// Hands the outcome of a read to its destination: on success `dst`
/// becomes the transferred part of `buf`; on failure it is left as it was.
pub fn deliver(outcome: Outcome, buf: Vec<u8>, dst: &mut Vec<u8>)
    ensures
        outcome matches Ok(n) ==> final(dst)@ == buf@.take(
            if n as int <= buf@.len() { n as int } else { buf@.len() as int },
        ),
        outcome is Err ==> final(dst)@ == old(dst)@,
{
    if let Ok(n) = outcome {
        let mut b = buf;
        keep_transferred(&mut b, n);
        *dst = b;
    }
}

/// How many answers a session may still wait for at most.
pub open spec fn remaining(p: Phase) -> nat {
    match p {
        Phase::Opening => 4,
        Phase::Sizing => 3,
        Phase::Transferring(_) => 2,
        Phase::Closing(_) => 1,
        Phase::Deleting => 1,
        Phase::Done(_) => 0,
    }
}

/// A handle is never left behind: a step that finishes an operation starts
/// either from a phase that holds no handle or from the release of the
/// handle, and a step out of a phase that holds one, other than the release,
/// still holds it. An open that succeeds yields a phase that holds one.
pub proof fn lemma_handle_released(op: Operation, len: u32, p: Phase, e: Event)
    requires
        accepts(op, p, e),
    ensures
        transition(op, len, p, e).1 is Finish ==> (p is Closing || !holds_handle(p)),
        transition(op, len, p, e).1 is Finish <==> transition(op, len, p, e).0 is Done,
        holds_handle(p) && !(p is Closing) ==> holds_handle(transition(op, len, p, e).0),
        p is Closing ==> transition(op, len, p, e).0 is Done,
        (p is Opening && e is Opened) ==> holds_handle(transition(op, len, p, e).0),
{
}

/// Every operation ends: each accepted answer brings the session closer to
/// its end, which it reaches after at most four answers.
pub proof fn lemma_progress(op: Operation, len: u32, p: Phase, e: Event)
    requires
        accepts(op, p, e),
    ensures
        remaining(transition(op, len, p, e).0) < remaining(p),
        remaining(transition(op, len, p, e).0) == 0 <==> transition(op, len, p, e).0 is Done,
        remaining(initial(op, len as nat).0) <= 4,
{
}

/// A failure is never masked: once an operation has failed, the release
/// that follows ends it with that same failure, whether or not the release
/// itself succeeds.
pub proof fn lemma_first_failure_kept(op: Operation, len: u32, f: AdsError, e: Event)
    requires
        accepts(op, Phase::Closing(Err(f)), e),
    ensures
        transition(op, len, Phase::Closing(Err(f)), e) == finish_with(Err(f)),
{
}

/// A transfer never counts more bytes than were asked for: no more than the
/// read buffer holds, no more than the data handed to a write.
pub proof fn lemma_transfer_within_request(op: Operation, len: u32, k: u32, e: Event)
    requires
        accepts(op, Phase::Transferring(k), e),
    ensures
        transition(op, len, Phase::Transferring(k), e).0 matches Phase::Closing(Ok(n)) ==> n <= k,
{
}

/// The phase reached from `p` once the answers `es` are taken in turn.
pub open spec fn run_from(op: Operation, len: u32, p: Phase, es: Seq<Event>) -> Phase
    decreases es.len(),
{
    if es.len() == 0 {
        p
    } else {
        run_from(op, len, transition(op, len, p, es[0]).0, es.drop_first())
    }
}

/// Whether each answer of `es` is accepted in the phase that it meets.
pub open spec fn all_accepted(op: Operation, len: u32, p: Phase, es: Seq<Event>) -> bool
    decreases es.len(),
{
    es.len() == 0 || (accepts(op, p, es[0]) && all_accepted(
        op,
        len,
        transition(op, len, p, es[0]).0,
        es.drop_first(),
    ))
}

/// Whether one of the answers `es` meets the release of the handle.
pub open spec fn passes_release(op: Operation, len: u32, p: Phase, es: Seq<Event>) -> bool
    decreases es.len(),
{
    es.len() > 0 && (p is Closing || passes_release(
        op,
        len,
        transition(op, len, p, es[0]).0,
        es.drop_first(),
    ))
}

/// Over a whole run: a session that holds a handle reaches its end only
/// through the release of that handle, and no session takes more answers
/// than it has left.
pub proof fn lemma_run_releases_handle(op: Operation, len: u32, p: Phase, es: Seq<Event>)
    requires
        all_accepted(op, len, p, es),
    ensures
        es.len() <= remaining(p),
        holds_handle(p) && run_from(op, len, p, es) is Done ==> passes_release(op, len, p, es),
    decreases es.len(),
{
    if es.len() > 0 {
        let q = transition(op, len, p, es[0]).0;
        lemma_handle_released(op, len, p, es[0]);
        lemma_progress(op, len, p, es[0]);
        lemma_run_releases_handle(op, len, q, es.drop_first());
    }
}

} // verus!
