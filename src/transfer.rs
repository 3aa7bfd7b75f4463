use vstd::prelude::*;

use crate::buffer::{Buffer, RcBuffer};
use crate::error::ProxyError;

verus! {

/// Where one direction of a proxy pair stands.
#[derive(Clone, Copy, Debug, PartialEq, Eq, Structural)]
pub enum Phase {
    /// Waiting for both halves to be ready.
    Idle,
    /// Holds the buffer lease; a read into the buffer is under way.
    Reading,
    /// Holds the buffer lease; the chunk read is being written out.
    Writing,
    /// The reader hit end of stream; the writer's write half is being closed.
    ShuttingDown,
    /// Finished.
    Done,
    /// Gave up on an error.
    Failed,
}

/// What the driver of a transfer observed.
#[derive(Clone, Debug, PartialEq, Eq)]
pub enum TransferEvent {
    /// Whether the read half and the write half are ready.
    Readiness { read: bool, write: bool },
    /// A read into the buffer returned this many bytes.
    ReadDone(usize),
    /// A read would have blocked.
    WouldBlock,
    /// A write of the pending chunk took this many bytes.
    Wrote(usize),
    /// The writer's write half was closed.
    ShutDown,
    /// A read, a write or a shutdown failed.
    IoFailed(ProxyError),
}

/// What the driver of a transfer is to do next.
#[derive(Clone, Debug, PartialEq, Eq)]
pub enum TransferAction {
    /// Park until a half becomes ready again, then report readiness.
    Wait,
    /// Check readiness again at once and report it.
    PollAgain,
    /// Read once from the reader into the buffer's region.
    Read,
    /// Write bytes `start..end` of the buffer's region to the writer.
    Write { start: usize, end: usize },
    /// Close the writer's write half.
    Shutdown,
    /// The transfer is over: this many bytes went through.
    Complete(u64),
    /// The transfer failed.
    Abort(ProxyError),
}

/// One direction of a proxy pair: copies from a reader to a writer through the
/// shared buffer, one chunk per lease, and counts the bytes that went out.
#[derive(Clone, Copy, Debug)]
pub struct TcpTransfer {
    id: u64,
    amt: u64,
    pending: usize,
    sent: usize,
    phase: Phase,
}

/// The state of a transfer, as its contracts see it.
pub struct TransferView {
    pub id: u64,
    pub amt: nat,
    pub pending: nat,
    pub sent: nat,
    pub phase: Phase,
}

/// Whether a phase holds the buffer lease.
pub open spec fn in_window(p: Phase) -> bool {
    p == Phase::Reading || p == Phase::Writing
}

/// The consistent states of a transfer.
pub open spec fn transfer_wf(v: TransferView) -> bool {
    &&& v.amt <= u64::MAX
    &&& v.sent <= v.pending
    &&& v.pending <= usize::MAX
    &&& (v.phase == Phase::Writing ==> v.sent < v.pending)
    &&& (v.phase != Phase::Writing ==> v.pending == 0 && v.sent == 0)
}

/// The same transfer in another phase, with nothing pending.
pub open spec fn with_phase(v: TransferView, p: Phase) -> TransferView {
    TransferView { id: v.id, amt: v.amt, pending: 0, sent: 0, phase: p }
}

/// How many bytes the event reports as written out, where the transfer takes
/// them; zero otherwise.
pub open spec fn delivered(v: TransferView, holder: Option<u64>, ev: TransferEvent) -> nat {
    match ev {
        TransferEvent::Wrote(m) => {
            if v.phase == Phase::Writing && holder == Some(v.id) && 0 < m && m <= v.pending - v.sent
                && v.amt + m <= u64::MAX {
                m as nat
            } else {
                0
            }
        },
        _ => 0,
    }
}

/// The next state and action of a transfer on an event, given who holds the
/// buffer lease and the buffer's size.
pub open spec fn next(v: TransferView, holder: Option<u64>, cap: nat, ev: TransferEvent) -> (
    TransferView,
    TransferAction,
) {
    let fail = (with_phase(v, Phase::Failed), TransferAction::Abort(ProxyError::UnexpectedEvent));
    match v.phase {
        Phase::Idle => match ev {
            TransferEvent::Readiness { read, write } => {
                if read && write && (holder is None || holder == Some(v.id)) {
                    (with_phase(v, Phase::Reading), TransferAction::Read)
                } else {
                    (v, TransferAction::Wait)
                }
            },
            TransferEvent::IoFailed(e) => (with_phase(v, Phase::Failed), TransferAction::Abort(e)),
            _ => fail,
        },
        Phase::Reading => match ev {
            TransferEvent::ReadDone(n) => {
                if n == 0 {
                    (with_phase(v, Phase::ShuttingDown), TransferAction::Shutdown)
                } else if n <= cap && holder == Some(v.id) {
                    (
                        TransferView { id: v.id, amt: v.amt, pending: n as nat, sent: 0, phase: Phase::Writing },
                        TransferAction::Write { start: 0, end: n },
                    )
                } else {
                    fail
                }
            },
            TransferEvent::WouldBlock => (with_phase(v, Phase::Idle), TransferAction::Wait),
            TransferEvent::IoFailed(e) => (with_phase(v, Phase::Failed), TransferAction::Abort(e)),
            _ => fail,
        },
        Phase::Writing => match ev {
            TransferEvent::Wrote(m) => {
                if holder != Some(v.id) || m > v.pending - v.sent {
                    fail
                } else if m == 0 {
                    (with_phase(v, Phase::Failed), TransferAction::Abort(ProxyError::WriteZero))
                } else if v.amt + m > u64::MAX {
                    (with_phase(v, Phase::Failed), TransferAction::Abort(ProxyError::CounterOverflow))
                } else if v.sent + m == v.pending {
                    (
                        TransferView { id: v.id, amt: (v.amt + m) as nat, pending: 0, sent: 0, phase: Phase::Idle },
                        TransferAction::PollAgain,
                    )
                } else {
                    (
                        TransferView {
                            id: v.id,
                            amt: (v.amt + m) as nat,
                            pending: v.pending,
                            sent: (v.sent + m) as nat,
                            phase: Phase::Writing,
                        },
                        TransferAction::Write { start: (v.sent + m) as usize, end: v.pending as usize },
                    )
                }
            },
            TransferEvent::IoFailed(e) => (with_phase(v, Phase::Failed), TransferAction::Abort(e)),
            _ => fail,
        },
        Phase::ShuttingDown => match ev {
            TransferEvent::ShutDown => (with_phase(v, Phase::Done), TransferAction::Complete(v.amt as u64)),
            TransferEvent::IoFailed(e) => (with_phase(v, Phase::Failed), TransferAction::Abort(e)),
            _ => fail,
        },
        Phase::Done => (v, TransferAction::Complete(v.amt as u64)),
        Phase::Failed => (v, TransferAction::Abort(ProxyError::UnexpectedEvent)),
    }
}

/// Who holds the buffer lease after the event: a transfer takes the lease
/// when it starts a read, and gives up a lease of its own when it leaves the
/// lease phases or fails; it never touches another owner's lease.
pub open spec fn holder_next(v: TransferView, holder: Option<u64>, cap: nat, ev: TransferEvent) -> Option<u64> {
    let w = next(v, holder, cap, ev).0;
    let leaves = in_window(v.phase) || (w.phase == Phase::Failed && v.phase != Phase::Failed);
    if in_window(w.phase) {
        Some(v.id)
    } else if leaves && holder == Some(v.id) {
        None
    } else {
        holder
    }
}

impl View for TcpTransfer {
    type V = TransferView;

    closed spec fn view(&self) -> TransferView {
        TransferView {
            id: self.id,
            amt: self.amt as nat,
            pending: self.pending as nat,
            sent: self.sent as nat,
            phase: self.phase,
        }
    }
}

impl TcpTransfer {
    #[verifier::type_invariant]
    closed spec fn inv(&self) -> bool {
        transfer_wf(self@)
    }

    /// A transfer named `id`, idle, with nothing sent yet.
    pub fn new(id: u64) -> (r: TcpTransfer)
        ensures
            r@ == (TransferView { id, amt: 0, pending: 0, sent: 0, phase: Phase::Idle }),
    {
        TcpTransfer { id, amt: 0, pending: 0, sent: 0, phase: Phase::Idle }
    }

    /// The two directions of a proxy pair, named `first` and `first + 1`.
    pub fn pair(first: u64) -> (r: (TcpTransfer, TcpTransfer))
        requires
            first < u64::MAX,
        ensures
            r.0@ == (TransferView { id: first, amt: 0, pending: 0, sent: 0, phase: Phase::Idle }),
            r.1@ == (TransferView {
                id: (first + 1) as u64,
                amt: 0,
                pending: 0,
                sent: 0,
                phase: Phase::Idle,
            }),
    {
        (TcpTransfer::new(first), TcpTransfer::new(first + 1))
    }

    /// The name of this transfer, which it leases the buffer under.
    pub fn id(&self) -> (r: u64)
        ensures
            r == self@.id,
    {
        self.id
    }

    /// How many bytes went out so far.
    pub fn amount(&self) -> (r: u64)
        ensures
            r == self@.amt,
    {
        self.amt
    }

    /// Where this transfer stands.
    pub fn phase(&self) -> (r: Phase)
        ensures
            r == self@.phase,
    {
        self.phase
    }

    /// Whether both halves are ready, which every read waits for.
    pub fn is_ready(read_ready: bool, write_ready: bool) -> (r: bool)
        ensures
            r == (read_ready && write_ready),
    {
        read_ready && write_ready
    }

    fn fail_with(&mut self, buf: &mut RcBuffer, e: ProxyError) -> (r: TransferAction)
        requires
            old(buf).wf(),
        ensures
            final(self)@ == with_phase(old(self)@, Phase::Failed),
            r == TransferAction::Abort(e),
            final(buf).wf(),
            final(buf).capacity() == old(buf).capacity(),
            final(buf).contents() == old(buf).contents(),
            old(buf).holder() == Some(old(self)@.id) ==> final(buf).holder() is None,
            old(buf).holder() != Some(old(self)@.id) ==> final(buf).holder() == old(buf).holder()
                && final(buf).filled() == old(buf).filled(),
    {
        buf.lease_write(self.id);
        *self = TcpTransfer { id: self.id, amt: self.amt, pending: 0, sent: 0, phase: Phase::Failed };
        TransferAction::Abort(e)
    }

    /// Advances this transfer on one event, leasing and releasing the shared
    /// buffer as the phases require.
    pub fn step(&mut self, buf: &mut RcBuffer, ev: TransferEvent) -> (r: TransferAction)
        requires
            old(buf).wf(),
        ensures
            (final(self)@, r) == next(old(self)@, old(buf).holder(), old(buf).capacity(), ev),
            final(buf).holder() == holder_next(old(self)@, old(buf).holder(), old(buf).capacity(), ev),
            final(buf).wf(),
            final(buf).capacity() == old(buf).capacity(),
            final(buf).contents() == old(buf).contents(),
            old(self)@.phase == Phase::Writing && final(self)@.phase == Phase::Writing 
                ==> final(buf).filled() == old(buf).filled(),
            old(self)@.phase == Phase::Reading && final(self)@.phase == Phase::Writing 
                ==> final(buf).filled() == final(self)@.pending,
    {
        proof { use_type_invariant(&*self); }
        match self.phase {
            Phase::Idle => match ev {
                TransferEvent::Readiness { read, write } => {
                    if Self::is_ready(read, write) {
                        if buf.lease_read(self.id) {
                            *self = TcpTransfer { phase: Phase::Reading, ..*self };
                            TransferAction::Read
                        } else {
                            TransferAction::Wait
                        }
                    } else {
                        TransferAction::Wait
                    }
                },
                TransferEvent::IoFailed(e) => self.fail_with(buf, e),
                _ => self.fail_with(buf, ProxyError::UnexpectedEvent),
            },
            Phase::Reading => match ev {
                TransferEvent::ReadDone(n) => {
                    if n == 0 {
                        buf.lease_write(self.id);
                        *self = TcpTransfer { phase: Phase::ShuttingDown, ..*self };
                        TransferAction::Shutdown
                    } else if n <= buf.size() && buf.current_holder() == Some(self.id) {
                        buf.record_read(self.id, n);
                        *self = TcpTransfer { id: self.id, amt: self.amt, pending: n, sent: 0, phase: Phase::Writing };
                        TransferAction::Write { start: 0, end: n }
                    } else {
                        self.fail_with(buf, ProxyError::UnexpectedEvent)
                    }
                },
                TransferEvent::WouldBlock => {
                    buf.lease_write(self.id);
                    *self = TcpTransfer { phase: Phase::Idle, ..*self };
                    TransferAction::Wait
                },
                TransferEvent::IoFailed(e) => self.fail_with(buf, e),
                _ => self.fail_with(buf, ProxyError::UnexpectedEvent),
            },
            Phase::Writing => match ev {
                TransferEvent::Wrote(m) => {
                    if buf.current_holder() != Some(self.id) || m > self.pending - self.sent {
                        self.fail_with(buf, ProxyError::UnexpectedEvent)
                    } else if m == 0 {
                        self.fail_with(buf, ProxyError::WriteZero)
                    } else if self.amt > u64::MAX - (m as u64) {
                        self.fail_with(buf, ProxyError::CounterOverflow)
                    } else if self.sent + m == self.pending {
                        buf.lease_write(self.id);
                        *self = TcpTransfer { id: self.id, amt: self.amt + m as u64, pending: 0, sent: 0, phase: Phase::Idle };
                        TransferAction::PollAgain
                    } else {
                        *self = TcpTransfer { amt: self.amt + m as u64, sent: self.sent + m, ..*self };
                        TransferAction::Write { start: self.sent, end: self.pending }
                    }
                },
                TransferEvent::IoFailed(e) => self.fail_with(buf, e),
                _ => self.fail_with(buf, ProxyError::UnexpectedEvent),
            },
            Phase::ShuttingDown => match ev {
                TransferEvent::ShutDown => {
                    *self = TcpTransfer { phase: Phase::Done, ..*self };
                    TransferAction::Complete(self.amt)
                },
                TransferEvent::IoFailed(e) => self.fail_with(buf, e),
                _ => self.fail_with(buf, ProxyError::UnexpectedEvent),
            },
            Phase::Done => TransferAction::Complete(self.amt),
            Phase::Failed => TransferAction::Abort(ProxyError::UnexpectedEvent),
        }
    }
}

/// The state of a transfer and the lease holder after a run of events.
pub open spec fn run(v: TransferView, holder: Option<u64>, cap: nat, evs: Seq<TransferEvent>) -> (
    TransferView,
    Option<u64>,
)
    decreases evs.len(),
{
    if evs.len() == 0 {
        (v, holder)
    } else {
        run(
            next(v, holder, cap, evs[0]).0,
            holder_next(v, holder, cap, evs[0]),
            cap,
            evs.drop_first(),
        )
    }
}

/// The bytes that a run of events reports as written out and the transfer
/// takes.
pub open spec fn run_delivered(
    v: TransferView,
    holder: Option<u64>,
    cap: nat,
    evs: Seq<TransferEvent>,
) -> nat
    decreases evs.len(),
{
    if evs.len() == 0 {
        0
    } else {
        delivered(v, holder, evs[0]) + run_delivered(
            next(v, holder, cap, evs[0]).0,
            holder_next(v, holder, cap, evs[0]),
            cap,
            evs.drop_first(),
        )
    }
}

/// A transfer counts exactly the bytes its writer took: after any run of
/// events its counter has grown by the bytes written out, and never shrunk.
pub proof fn byte_conservation(v: TransferView, holder: Option<u64>, cap: nat, evs: Seq<TransferEvent>)
    ensures
        run(v, holder, cap, evs).0.amt == v.amt + run_delivered(v, holder, cap, evs),
        run(v, holder, cap, evs).0.amt >= v.amt,
    decreases evs.len(),
{
    if evs.len() > 0 {
        let e = evs[0];
        assert(next(v, holder, cap, e).0.amt == v.amt + delivered(v, holder, e));
        byte_conservation(
            next(v, holder, cap, e).0,
            holder_next(v, holder, cap, e),
            cap,
            evs.drop_first(),
        );
    }
}

/// End of stream on the reader gives up the lease and closes the writer's
/// write half at the next step; once that is done the transfer completes with
/// its count.
pub proof fn half_close(v: TransferView, holder: Option<u64>, cap: nat)
    requires
        v.phase == Phase::Reading,
    ensures
        next(v, holder, cap, TransferEvent::ReadDone(0)) == (
            with_phase(v, Phase::ShuttingDown),
            TransferAction::Shutdown,
        ),
        holder == Some(v.id) ==> holder_next(v, holder, cap, TransferEvent::ReadDone(0)) is None,
        next(with_phase(v, Phase::ShuttingDown), None, cap, TransferEvent::ShutDown) == (
            with_phase(v, Phase::Done),
            TransferAction::Complete(v.amt as u64),
        ),
{
}

/// An idle transfer whose halves are both ready, over a buffer that no other
/// transfer holds, reads; if that read meets end of stream, it gives the
/// lease back and closes the writer's write half at once, then completes
/// with its count. A buffer held by another transfer only makes it wait.
pub proof fn half_close_from_idle(v: TransferView, holder: Option<u64>, cap: nat)
    requires
        v.phase == Phase::Idle,
    ensures
        ({
            let ready = TransferEvent::Readiness { read: true, write: true };
            let r = next(v, holder, cap, ready);
            let h1 = holder_next(v, holder, cap, ready);
            &&& (holder is None || holder == Some(v.id)) ==> r == (
                with_phase(v, Phase::Reading),
                TransferAction::Read,
            ) && h1 == Some(v.id) && next(r.0, h1, cap, TransferEvent::ReadDone(0)) == (
                with_phase(v, Phase::ShuttingDown),
                TransferAction::Shutdown,
            ) && holder_next(r.0, h1, cap, TransferEvent::ReadDone(0)) is None
            &&& !(holder is None || holder == Some(v.id)) ==> r == (v, TransferAction::Wait) && h1
                == holder
        }),
{
}

/// A transfer and a buffer agree when a transfer in its lease window holds
/// the lease.
pub open spec fn lease_consistent(v: TransferView, holder: Option<u64>) -> bool {
    in_window(v.phase) ==> holder == Some(v.id)
}

/// Two transfers never stand in their lease windows at once: where both
/// agree with the buffer, at most one is in its window, and a step of either
/// keeps both in agreement.
pub proof fn buffer_exclusivity(
    a: TransferView,
    b: TransferView,
    holder: Option<u64>,
    cap: nat,
    ev: TransferEvent,
)
    requires
        a.id != b.id,
        lease_consistent(a, holder),
        lease_consistent(b, holder),
    ensures
        !(in_window(a.phase) && in_window(b.phase)),
        lease_consistent(next(a, holder, cap, ev).0, holder_next(a, holder, cap, ev)),
        lease_consistent(b, holder_next(a, holder, cap, ev)),
{
}

/// Two transfers sharing one buffer, after an interleaving of their events:
/// each entry names the transfer it goes to (`true` for `a`) and the event.
pub open spec fn run_pair(
    a: TransferView,
    b: TransferView,
    holder: Option<u64>,
    cap: nat,
    evs: Seq<(bool, TransferEvent)>,
) -> (TransferView, TransferView, Option<u64>)
    decreases evs.len(),
{
    if evs.len() == 0 {
        (a, b, holder)
    } else {
        let (to_a, ev) = evs[0];
        if to_a {
            run_pair(
                next(a, holder, cap, ev).0,
                b,
                holder_next(a, holder, cap, ev),
                cap,
                evs.drop_first(),
            )
        } else {
            run_pair(
                a,
                next(b, holder, cap, ev).0,
                holder_next(b, holder, cap, ev),
                cap,
                evs.drop_first(),
            )
        }
    }
}

proof fn lemma_run_pair_consistent(
    a: TransferView,
    b: TransferView,
    holder: Option<u64>,
    cap: nat,
    evs: Seq<(bool, TransferEvent)>,
)
    requires
        a.id != b.id,
        lease_consistent(a, holder),
        lease_consistent(b, holder),
    ensures
        run_pair(a, b, holder, cap, evs).0.id == a.id,
        run_pair(a, b, holder, cap, evs).1.id == b.id,
        lease_consistent(run_pair(a, b, holder, cap, evs).0, run_pair(a, b, holder, cap, evs).2),
        lease_consistent(run_pair(a, b, holder, cap, evs).1, run_pair(a, b, holder, cap, evs).2),
    decreases evs.len(),
{
    if evs.len() > 0 {
        let (to_a, ev) = evs[0];
        if to_a {
            buffer_exclusivity(a, b, holder, cap, ev);
            lemma_run_pair_consistent(
                next(a, holder, cap, ev).0,
                b,
                holder_next(a, holder, cap, ev),
                cap,
                evs.drop_first(),
            );
        } else {
            buffer_exclusivity(b, a, holder, cap, ev);
            lemma_run_pair_consistent(
                a,
                next(b, holder, cap, ev).0,
                holder_next(b, holder, cap, ev),
                cap,
                evs.drop_first(),
            );
        }
    }
}

/// Two new transfers over a free buffer never stand in their lease windows
/// at once, however their events interleave.
pub proof fn buffer_exclusivity_from_start(
    a_id: u64,
    b_id: u64,
    cap: nat,
    evs: Seq<(bool, TransferEvent)>,
)
    requires
        a_id != b_id,
    ensures
        ({
            let a0 = TransferView { id: a_id, amt: 0, pending: 0, sent: 0, phase: Phase::Idle };
            let b0 = TransferView { id: b_id, amt: 0, pending: 0, sent: 0, phase: Phase::Idle };
            let r = run_pair(a0, b0, None, cap, evs);
            !(in_window(r.0.phase) && in_window(r.1.phase))
        }),
{
    let a0 = TransferView { id: a_id, amt: 0, pending: 0, sent: 0, phase: Phase::Idle };
    let b0 = TransferView { id: b_id, amt: 0, pending: 0, sent: 0, phase: Phase::Idle };
    lemma_run_pair_consistent(a0, b0, None, cap, evs);
}

} // verus!
