//! The raw-mode session: which terminal attributes to apply when.
//!
//! The session owns the snapshot of the device's attributes taken when it
//! began, and never changes it. Every operation answers with the attributes
//! that the caller applies to the device; ending the session (which consumes
//! it, so it happens once) answers with the snapshot, so the device ends
//! where it started whatever happened in between.
//!
//! `A` is the platform's attribute record; the session never looks inside it.

use vstd::prelude::*;
use crate::error::TermError;

verus! {

/// Mathematical model of a [`RawSession`].
pub ghost struct SessionModel<A> {
    pub fd: int,
    pub original: A,
    pub raw: A,
    pub raw_active: bool,
}

/// What the session is asked to do.
pub ghost enum SessionOp {
    /// Enter raw mode.
    Activate,
    /// Go back to the original mode for a while.
    Suspend,
    /// The last attributes handed out could not be applied.
    ApplyFailed,
}

/// The state after `op`, and the attributes that `op` asks to apply.
pub open spec fn session_step<A>(m: SessionModel<A>, op: SessionOp) -> (SessionModel<A>, A) {
    match op {
        SessionOp::Activate => (SessionModel { raw_active: true, ..m }, m.raw),
        SessionOp::Suspend => (SessionModel { raw_active: false, ..m }, m.original),
        SessionOp::ApplyFailed => (SessionModel { raw_active: false, ..m }, m.original),
    }
}

/// The state after a run of operations.
pub open spec fn session_run<A>(m: SessionModel<A>, ops: Seq<SessionOp>) -> SessionModel<A>
    decreases ops.len(),
{
    if ops.len() == 0 {
        m
    } else {
        session_run(session_step(m, ops[0]).0, ops.skip(1))
    }
}

/// The attributes that teardown applies.
pub open spec fn teardown<A>(m: SessionModel<A>) -> A {
    m.original
}

/// The model of a session just begun on `fd` over a device whose attributes
/// were `captured`, with `raw` their raw form.
pub open spec fn begun<A>(fd: int, captured: A, raw: A) -> SessionModel<A> {
    SessionModel { fd, original: captured, raw, raw_active: false }
}

/// A raw-mode session over one terminal device.
pub struct RawSession<A> {
    fd: i32,
    original: A,
    raw: A,
    raw_active: bool,
}

impl<A: Copy> View for RawSession<A> {
    type V = SessionModel<A>;

    closed spec fn view(&self) -> SessionModel<A> {
        SessionModel {
            fd: self.fd as int,
            original: self.original,
            raw: self.raw,
            raw_active: self.raw_active,
        }
    }
}

impl<A: Copy> RawSession<A> {
    /// Begins a session on the device `fd`. `captured` is the result of
    /// querying the device's attributes, with their raw form; without it the
    /// session cannot begin. Raw mode is not yet active.
    pub fn begin(fd: i32, captured: Option<(A, A)>) -> (r: Result<RawSession<A>, TermError>)
        ensures
            match captured {
                Some((original, raw)) => r is Ok && r->Ok_0@ == begun(fd as int, original, raw),
                None => r == Err::<RawSession<A>, TermError>(TermError::AttributeQueryFailed),
            },
    {
        match captured {
            Some((original, raw)) => Ok(RawSession { fd, original, raw, raw_active: false }),
            None => Err(TermError::AttributeQueryFailed),
        }
    }

    /// The device the session governs.
    pub fn device_fd(&self) -> (r: i32)
        ensures
            r as int == self@.fd,
    {
        self.fd
    }

    /// Whether raw mode is in effect.
    pub fn is_raw(&self) -> (r: bool)
        ensures
            r == self@.raw_active,
    {
        self.raw_active
    }

    /// The attributes captured when the session began.
    pub fn original_attrs(&self) -> (r: A)
        ensures
            r == self@.original,
    {
        self.original
    }

    /// Enters raw mode: answers with the raw attributes to apply. Asking
    /// again while raw answers with the same attributes, a no-op in effect.
    pub fn activate_raw_mode(&mut self) -> (r: A)
        ensures
            (final(self)@, r) == session_step(old(self)@, SessionOp::Activate),
    {
        self.raw_active = true;
        self.raw
    }

    /// Leaves raw mode for a while: answers with the original attributes.
    pub fn suspend_raw_mode(&mut self) -> (r: A)
        ensures
            (final(self)@, r) == session_step(old(self)@, SessionOp::Suspend),
    {
        self.raw_active = false;
        self.original
    }

    /// The attributes last handed out could not be applied: answers with the
    /// error to report and the original attributes, so that the device is
    /// left fully restored rather than half raw.
    pub fn apply_failed(&mut self) -> (r: (TermError, A))
        ensures
            r.0 == TermError::AttributeSetFailed,
            (final(self)@, r.1) == session_step(old(self)@, SessionOp::ApplyFailed),
    {
        self.raw_active = false;
        (TermError::AttributeSetFailed, self.original)
    }

    /// Ends the session: answers with the attributes captured at its start,
    /// which the caller applies to the device.
    pub fn end(self) -> (r: A)
        ensures
            r == teardown(self@),
    {
        self.original
    }
}

/// Whatever operations run while a session is alive, its snapshot stays as
/// captured, and teardown applies exactly that snapshot.
pub proof fn lemma_teardown_restores<A>(m: SessionModel<A>, ops: Seq<SessionOp>)
    ensures
        session_run(m, ops).original == m.original,
        session_run(m, ops).raw == m.raw,
        session_run(m, ops).fd == m.fd,
        teardown(session_run(m, ops)) == m.original,
    decreases ops.len(),
{
    if ops.len() > 0 {
        lemma_teardown_restores(session_step(m, ops[0]).0, ops.skip(1));
    }
}

/// Entering raw mode while already raw changes nothing: the same state, and
/// the same attributes to apply.
pub proof fn lemma_activate_idempotent<A>(m: SessionModel<A>)
    ensures
        session_step(session_step(m, SessionOp::Activate).0, SessionOp::Activate) == session_step(
            m,
            SessionOp::Activate,
        ),
{
}

/// Sessions over one device, one begun while the other is alive or one after
/// the other, keep their own snapshots. A second session begun while the
/// first holds the device raw captures the raw attributes and restores those;
/// the first still restores what it captured. A session begun after the
/// first has ended captures what the first restored, its own snapshot.
pub proof fn lemma_sessions_keep_snapshots<A>(
    fd: int,
    device: A,
    raw: A,
    raw_of_raw: A,
    ops1: Seq<SessionOp>,
    ops2: Seq<SessionOp>,
)
    ensures
        ({
            let first = session_step(begun(fd, device, raw), SessionOp::Activate);
            let second = begun(fd, first.1, raw_of_raw);
            &&& teardown(session_run(second, ops2)) == raw
            &&& session_run(first.0, ops1).original == device
            &&& teardown(session_run(first.0, ops1)) == device
        }),
        ({
            let after_first = teardown(session_run(begun(fd, device, raw), ops1));
            begun(fd, after_first, raw).original == begun(fd, device, raw).original
        }),
{
    let first = session_step(begun(fd, device, raw), SessionOp::Activate);
    lemma_teardown_restores(begun(fd, first.1, raw_of_raw), ops2);
    lemma_teardown_restores(first.0, ops1);
    lemma_teardown_restores(begun(fd, device, raw), ops1);
}

} // verus!
