//! The record of one read request, which the reading task and the completion
//! callback share.

use vstd::prelude::*;
use std::task::Waker;

verus! {

/// `std::task::Waker`, the handle by which a suspended task is resumed. The
/// library stores it and hands it out, and never looks inside.
#[verifier::external_type_specification]
#[verifier::external_body]
pub struct ExWaker(Waker);

/// Where the current submission of a record stands.
#[derive(Clone, Copy, Debug, PartialEq, Eq, Structural)]
pub enum Phase {
    /// Nothing is submitted and no result waits to be read.
    Idle,
    /// A read is submitted to the operating system and has not completed.
    InFlight,
    /// The completion has been recorded and the task has not read it yet.
    Completed,
}

/// What a record holds, as plain values.
pub struct RecordView {
    /// The offset in the file at which the next submission reads.
    pub offset: u64,
    /// The bytes that the last completion transferred and that the task has
    /// not taken yet.
    pub transferred: u32,
    /// The status of the last completion.
    pub status: u32,
    /// Where the current submission stands.
    pub phase: Phase,
    /// The resumption handle of the suspended task.
    pub waker: Option<Waker>,
}

impl RecordView {
    /// A resumption handle is stored only while a submission is outstanding,
    /// and bytes wait only in a recorded completion.
    pub open spec fn wf(self) -> bool {
        &&& self.waker is Some ==> self.phase == Phase::InFlight
        &&& self.phase != Phase::Completed ==> self.transferred == 0
    }

    /// The record before its first submission.
    pub open spec fn fresh() -> RecordView {
        RecordView { offset: 0, transferred: 0, status: 0, phase: Phase::Idle, waker: None }
    }

    /// The record after the completion callback has written `status` and
    /// `transferred` into it, and the handle to resume, if one was stored.
    pub open spec fn complete(self, status: u32, transferred: u32) -> (RecordView, Option<Waker>) {
        (
            RecordView {
                offset: self.offset,
                transferred,
                status,
                phase: Phase::Completed,
                waker: None,
            },
            self.waker,
        )
    }

    /// What the progress callback is told before the next submission: the
    /// bytes of the last completion, unless there were none.
    pub open spec fn progress(self) -> Option<u32> {
        if self.transferred > 0 {
            Some(self.transferred)
        } else {
            None
        }
    }

    /// The record at the moment of the next submission: the offset has moved
    /// on by the bytes of the last completion, and nothing waits any more.
    pub open spec fn submit(self) -> RecordView {
        RecordView {
            offset: (self.offset + self.transferred) as u64,
            transferred: 0,
            status: self.status,
            phase: Phase::InFlight,
            waker: None,
        }
    }

    /// The record of a read that is over with the status `status`.
    pub open spec fn finish(self, status: u32) -> RecordView {
        RecordView {
            offset: self.offset,
            transferred: 0,
            status,
            phase: Phase::Idle,
            waker: None,
        }
    }

    /// The record after the task has offered `waker` for the outstanding
    /// submission, and whether the record kept it.
    pub open spec fn register(self, waker: Waker) -> (RecordView, bool) {
        if self.phase == Phase::InFlight {
            (RecordView { waker: Some(waker), ..self }, true)
        } else {
            (self, false)
        }
    }
}

/// The record of one read request: the running offset, what the last
/// completion reported, and the slot for the handle of the suspended task.
#[derive(Debug)]
pub struct OverlappedWrap {
    offset: u64,
    len: u32,
    err: u32,
    phase: Phase,
    waker: Option<Waker>,
}

impl View for OverlappedWrap {
    type V = RecordView;

    closed spec fn view(&self) -> RecordView {
        RecordView {
            offset: self.offset,
            transferred: self.len,
            status: self.err,
            phase: self.phase,
            waker: self.waker,
        }
    }
}

impl OverlappedWrap {
    /// Every record is well formed.
    #[verifier::type_invariant]
    pub open spec fn inv(self) -> bool {
        self@.wf()
    }

    /// A record before its first submission: offset zero, nothing
    /// transferred, status zero, no handle.
    pub fn new() -> (record: Self)
        ensures
            record@ == RecordView::fresh(),
    {
        OverlappedWrap { offset: 0, len: 0, err: 0, phase: Phase::Idle, waker: None }
    }

    /// The offset in the file at which the next submission reads.
    pub fn offset(&self) -> (offset: u64)
        ensures
            offset == self@.offset,
    {
        self.offset
    }

    /// The low half of the offset, as the operating system takes it.
    pub fn offset_low(&self) -> (low: u32)
        ensures
            low == self@.offset % 0x1_0000_0000,
    {
        let offset: u64 = self.offset;
        assert(offset & 0xFFFF_FFFF == offset % 0x1_0000_0000) by (bit_vector);
        (offset & 0xFFFF_FFFF) as u32
    }

    /// The high half of the offset, as the operating system takes it.
    pub fn offset_high(&self) -> (high: u32)
        ensures
            high == self@.offset / 0x1_0000_0000,
    {
        let offset: u64 = self.offset;
        assert(offset >> 32 == offset / 0x1_0000_0000) by (bit_vector);
        assert(offset >> 32 <= 0xFFFF_FFFF) by (bit_vector);
        (offset >> 32) as u32
    }

    /// The bytes that the last completion transferred and that the task has
    /// not taken yet.
    pub fn transferred(&self) -> (transferred: u32)
        ensures
            transferred == self@.transferred,
    {
        self.len
    }

    /// The status of the last completion.
    pub fn status(&self) -> (status: u32)
        ensures
            status == self@.status,
    {
        self.err
    }

    /// Where the current submission stands.
    pub fn phase(&self) -> (phase: Phase)
        ensures
            phase == self@.phase,
    {
        self.phase
    }

    /// Whether a submission is outstanding at the operating system.
    pub fn is_in_flight(&self) -> (in_flight: bool)
        ensures
            in_flight == (self@.phase == Phase::InFlight),
    {
        self.phase == Phase::InFlight
    }

    /// Whether the handle of a suspended task is stored.
    pub fn has_waker(&self) -> (stored: bool)
        ensures
            stored == (self@.waker is Some),
    {
        self.waker.is_some()
    }

    /// The task's step before a submission: takes the bytes of the last
    /// completion, moves the offset on by them and marks the record as in
    /// flight. Returns what the progress callback is to be told.
    pub(crate) fn submit(&mut self) -> (progress: Option<u32>)
        requires
            old(self)@.phase != Phase::InFlight,
            old(self)@.offset + old(self)@.transferred <= u64::MAX,
        ensures
            final(self)@ == old(self)@.submit(),
            progress == old(self)@.progress(),
    {
        proof {
            use_type_invariant(&*self);
        }
        let progress = if self.len > 0 {
            Some(self.len)
        } else {
            None
        };
        self.offset = self.offset + self.len as u64;
        self.len = 0;
        self.phase = Phase::InFlight;
        progress
    }

    /// The task's step at the end of a read: records `status` and ends the
    /// submission.
    pub(crate) fn finish(&mut self, status: u32)
        ensures
            final(self)@ == old(self)@.finish(status),
    {
        proof {
            use_type_invariant(&*self);
        }
        self.waker = None;
        self.len = 0;
        self.phase = Phase::Idle;
        self.err = status;
    }

    /// The completion callback: writes what the operating system reports
    /// into the record and takes the handle of the suspended task out of it.
    /// The caller resumes the task through the handle it gets. Where the
    /// completion came before the task stored a handle, there is none to
    /// resume, and the recorded completion tells the task not to suspend.
    pub fn complete(&mut self, status: u32, transferred: u32) -> (woken: Option<Waker>)
        ensures
            final(self)@ == old(self)@.complete(status, transferred).0,
            woken == old(self)@.complete(status, transferred).1,
    {
        proof {
            use_type_invariant(&*self);
        }
        let mut woken: Option<Waker> = None;
        core::mem::swap(&mut self.waker, &mut woken);
        self.phase = Phase::Completed;
        self.err = status;
        self.len = transferred;
        woken
    }

    /// Offers the handle of the task for the outstanding submission, in one
    /// step with the test whether the submission has completed already.
    /// Returns `true` where the record kept the handle: the task suspends and
    /// the completion will hand the handle out. Returns `false` where no
    /// submission is outstanding any more: the task goes on at once.
    pub fn register(&mut self, waker: Waker) -> (stored: bool)
        ensures
            final(self)@ == old(self)@.register(waker).0,
            stored == old(self)@.register(waker).1,
    {
        proof {
            use_type_invariant(&*self);
        }
        if self.phase == Phase::InFlight {
            self.waker = Some(waker);
            true
        } else {
            false
        }
    }
}

/// How many times the task is resumed by a registration that said `stored`
/// and a completion that handed out `woken`: once where the registration
/// tells the task to go on at once, once where the completion hands out a
/// handle.
pub open spec fn resumptions(stored: bool, woken: Option<Waker>) -> nat {
    let by_registration: nat = if stored { 0 } else { 1 };
    let by_completion: nat = if woken is Some { 1 } else { 0 };
    by_registration + by_completion
}

/// A suspended task is resumed exactly once, whichever comes first, the
/// completion or the registration of its handle. While a submission is
/// outstanding and no handle is stored yet: where the handle is registered
/// first, the record keeps it and the completion hands out that very
/// handle; where the completion comes first, it hands out nothing and the
/// registration tells the task to go on at once. The record ends up the same
/// either way, with the completion recorded and the slot empty.
pub proof fn lemma_resumed_exactly_once(
    record: RecordView,
    waker: Waker,
    status: u32,
    transferred: u32,
)
    requires
        record.wf(),
        record.phase == Phase::InFlight,
        record.waker is None,
    ensures
        ({
            let registered = record.register(waker);
            let completed = registered.0.complete(status, transferred);
            &&& registered.1
            &&& completed.1 == Some(waker)
            &&& resumptions(registered.1, completed.1) == 1
            &&& completed.0 == record.complete(status, transferred).0
        }),
        ({
            let completed = record.complete(status, transferred);
            let registered = completed.0.register(waker);
            &&& completed.1 is None
            &&& !registered.1
            &&& resumptions(registered.1, completed.1) == 1
            &&& registered.0 == record.complete(status, transferred).0
        }),
        record.complete(status, transferred).0.waker is None,
{
}

/// A completion may come at any time, also after the task that waited for it
/// is gone: it leaves a well-formed record with nothing outstanding, which
/// holds what the operating system reported.
pub proof fn lemma_completion_always_lands(record: RecordView, status: u32, transferred: u32)
    requires
        record.wf(),
    ensures
        record.complete(status, transferred).0.wf(),
        record.complete(status, transferred).0.phase == Phase::Completed,
        record.complete(status, transferred).0.status == status,
        record.complete(status, transferred).0.transferred == transferred,
        record.complete(status, transferred).0.offset == record.offset,
        record.complete(status, transferred).1 == record.waker,
{
}

impl Default for OverlappedWrap {
    fn default() -> (record: Self)
        ensures
            record@ == RecordView::fresh(),
    {
        OverlappedWrap::new()
    }
}

} // verus!
