//! The state machine that drives one read of a file to its end, one
//! submission at a time.

use vstd::prelude::*;
use std::task::Waker;
use crate::handle::{AsyncHandle, HandleView};
use crate::record::{Phase, RecordView};
use crate::status::{classify, error_of, is_end_of_file, meaning_of, Completion, Error};
use crate::status::ERROR_IO_PENDING;

verus! {

/// Where a read stands.
#[derive(Clone, Copy, Debug, PartialEq, Eq, Structural)]
pub enum ReadState {
    /// Nothing has been submitted yet.
    NotStarted,
    /// A submission was made; its answer or its completion is awaited or
    /// waits in the record.
    Submitted,
    /// The operating system completed the last submission at once. Its bytes
    /// wait in the record and the read goes on with the next resumption.
    CompletedOk,
    /// The end of the file was reached; the read is over with this total of
    /// bytes.
    CompletedEof(u64),
    /// The read is over with this error.
    Failed(Error),
}

impl ReadState {
    /// Whether the read is over: it has reached the end of the file or
    /// failed.
    pub open spec fn finished(self) -> bool {
        self is CompletedEof || self is Failed
    }

    /// The result of a read that is over: the total of bytes, or the error.
    pub open spec fn result(self) -> Option<Result<u64, Error>> {
        match self {
            ReadState::CompletedEof(total) => Some(Ok(total)),
            ReadState::Failed(error) => Some(Err(error)),
            _ => None,
        }
    }
}

/// What a read holds, as plain values.
pub struct ReadView {
    /// Where the read stands.
    pub state: ReadState,
    /// The descriptor of the handle that started the read.
    pub descriptor: usize,
}

/// What the caller does after a resumption.
#[derive(Clone, Copy, Debug, PartialEq, Eq)]
pub enum Step {
    /// Tell the progress callback `progress`, if there is any, then submit a
    /// read at `offset` to the operating system and report its answer with
    /// [`ReadOperation::submitted`].
    Submit { progress: Option<u32>, offset: u64 },
    /// A submission is still outstanding: offer a handle with
    /// [`AsyncHandle::register`] and suspend.
    Wait,
    /// The read is over with this result.
    Finished(Result<u64, Error>),
}

/// What the caller does after the operating system has answered a
/// submission.
#[derive(Clone, Copy, Debug, PartialEq, Eq)]
pub enum Next {
    /// The handle is stored: suspend; the completion will hand it out.
    Suspend,
    /// Do not suspend: resume the read at once.
    Resume,
    /// The read is over with this result.
    Finished(Result<u64, Error>),
}

/// A resumption: the state and the record after it, and what the caller does
/// next.
///
/// A read that is over stays as it is. While a submission is outstanding
/// nothing changes. Else the recorded status decides: the end of the file
/// ends the read with the running offset as its total, a failure ends it with
/// the error, and after a success the bytes of the last completion are
/// reported, the offset moves on by them and the next submission follows.
pub open spec fn resume_step(state: ReadState, record: RecordView) -> (ReadState, RecordView, Step) {
    match state {
        ReadState::CompletedEof(total) => (state, record, Step::Finished(Ok(total))),
        ReadState::Failed(error) => (state, record, Step::Finished(Err(error))),
        _ => if record.phase == Phase::InFlight {
            (state, record, Step::Wait)
        } else {
            match meaning_of(record.status) {
                Completion::EndOfFile => (
                    ReadState::CompletedEof(record.offset),
                    record.finish(record.status),
                    Step::Finished(Ok(record.offset)),
                ),
                Completion::Failed(error) => (
                    ReadState::Failed(error),
                    record.finish(record.status),
                    Step::Finished(Err(error)),
                ),
                Completion::Success => (
                    ReadState::Submitted,
                    record.submit(),
                    Step::Submit { progress: record.progress(), offset: record.submit().offset },
                ),
            }
        },
    }
}

/// The answer of the operating system to a submission: the state and the
/// record after it, and what the caller does next.
///
/// `Ok` holds the bytes of a read that completed at once: they are recorded
/// as a completion is, and the read goes on with the next resumption, which
/// reports them. `Err` holds the code of a read that did not: where it says
/// that the read is pending, the handle is offered to the record; where it
/// says that the read started at the end of the file, the read is over with
/// the offset as its total; any other code ends the read with its error. A
/// read that awaits no answer stays as it is.
pub open spec fn submitted_step(
    state: ReadState,
    record: RecordView,
    outcome: Result<u32, u32>,
    waker: Waker,
) -> (ReadState, RecordView, Next) {
    if state != ReadState::Submitted {
        (state, record, Next::Resume)
    } else {
        match outcome {
            Ok(transferred) => (
                ReadState::CompletedOk,
                record.complete(0, transferred).0,
                Next::Resume,
            ),
            Err(code) => if code == ERROR_IO_PENDING {
                (
                    state,
                    record.register(waker).0,
                    if record.register(waker).1 {
                        Next::Suspend
                    } else {
                        Next::Resume
                    },
                )
            } else if is_end_of_file(code) {
                (
                    ReadState::CompletedEof(record.offset),
                    record.finish(code),
                    Next::Finished(Ok(record.offset)),
                )
            } else {
                (
                    ReadState::Failed(error_of(code)),
                    record.finish(code),
                    Next::Finished(Err(error_of(code))),
                )
            },
        }
    }
}

/// Whether a step ended the read: it was not over before and is over after.
pub open spec fn ends(before: ReadState, after: ReadState) -> bool {
    !before.finished() && after.finished()
}

/// Whether a resumption asks for a submission: the read is not over, no
/// submission is outstanding and the recorded status is a success.
pub open spec fn resume_submits(state: ReadState, record: RecordView) -> bool {
    &&& !state.finished()
    &&& record.phase != Phase::InFlight
    &&& meaning_of(record.status) is Success
}

/// A read moves forward only: it starts by submitting at offset zero, it
/// never comes back to the state before its first submission, and only the
/// answer to a submission says that it was completed at once.
pub proof fn lemma_states_move_forward(
    state: ReadState,
    record: RecordView,
    outcome: Result<u32, u32>,
    waker: Waker,
)
    ensures
        resume_step(ReadState::NotStarted, RecordView::fresh()) == (
            ReadState::Submitted,
            RecordView::fresh().submit(),
            Step::Submit { progress: None, offset: 0 },
        ),
        resume_step(state, record).0 == ReadState::NotStarted ==> state == ReadState::NotStarted,
        submitted_step(state, record, outcome, waker).0 == ReadState::NotStarted ==> state
            == ReadState::NotStarted,
        resume_step(state, record).0 == ReadState::CompletedOk ==> state
            == ReadState::CompletedOk,
        state == ReadState::Submitted ==> (submitted_step(state, record, outcome, waker).0
            == ReadState::CompletedOk <==> outcome is Ok),
{
}

/// One submission at a time: a resumption asks for a submission only while
/// none is outstanding, and then one is.
pub proof fn lemma_one_submission_at_a_time(state: ReadState, record: RecordView)
    ensures
        resume_step(state, record).2 is Submit ==> {
            &&& record.phase != Phase::InFlight
            &&& resume_step(state, record).1.phase == Phase::InFlight
            &&& resume_step(state, record).0 == ReadState::Submitted
        },
        resume_step(state, record).2 is Submit <==> resume_submits(state, record),
        record.phase == Phase::InFlight ==> resume_step(state, record).1 == record,
{
}

/// The end of the file is no error: whether a completion records it or the
/// operating system answers it to a submission, under either of its two
/// codes, a read that is not over ends with the running offset as its total.
pub proof fn lemma_end_of_file_is_success(
    state: ReadState,
    record: RecordView,
    code: u32,
    waker: Waker,
)
    requires
        !state.finished(),
        is_end_of_file(code),
    ensures
        record.phase != Phase::InFlight && record.status == code ==> {
            &&& resume_step(state, record).0 == ReadState::CompletedEof(record.offset)
            &&& resume_step(state, record).2 == Step::Finished(Ok(record.offset))
        },
        state == ReadState::Submitted ==> {
            &&& submitted_step(state, record, Err(code), waker).0 == ReadState::CompletedEof(
                record.offset,
            )
            &&& submitted_step(state, record, Err(code), waker).2 == Next::Finished(
                Ok(record.offset),
            )
        },
{
}

/// A read that is over stays over: whatever is recorded and whatever the
/// operating system answers, its state and the record stay as they are, it
/// asks for no submission, and a resumption gives its result again.
pub proof fn lemma_finished_is_final(
    state: ReadState,
    record: RecordView,
    outcome: Result<u32, u32>,
    waker: Waker,
)
    requires
        state.finished(),
    ensures
        resume_step(state, record).0 == state,
        resume_step(state, record).1 == record,
        state.result() matches Some(result) && resume_step(state, record).2 == Step::Finished(
            result,
        ),
        submitted_step(state, record, outcome, waker).0 == state,
        submitted_step(state, record, outcome, waker).1 == record,
        submitted_step(state, record, outcome, waker).2 == Next::Resume,
{
}

/// The steps of a read keep the record well formed, and they leave nothing
/// outstanding and no handle in the record of a read that they end.
pub proof fn lemma_steps_keep_wf(
    state: ReadState,
    record: RecordView,
    outcome: Result<u32, u32>,
    waker: Waker,
)
    requires
        record.wf(),
    ensures
        resume_step(state, record).1.wf(),
        submitted_step(state, record, outcome, waker).1.wf(),
        ends(state, resume_step(state, record).0) ==> resume_step(state, record).1.phase
            == Phase::Idle,
        ends(state, submitted_step(state, record, outcome, waker).0) ==> submitted_step(
            state,
            record,
            outcome,
            waker,
        ).1.phase == Phase::Idle,
{
}

/// Offsets are gapless and never go back: while a submission at some offset
/// is outstanding, its completion leaves the offset alone, and the
/// resumption after a successful completion submits at that offset plus the
/// bytes that the completion transferred.
pub proof fn lemma_offsets_gapless(state: ReadState, record: RecordView, transferred: u32)
    requires
        !state.finished(),
        record.wf(),
        record.phase == Phase::InFlight,
        record.offset + transferred <= u64::MAX,
    ensures
        ({
            let completed = record.complete(0, transferred).0;
            let resumed = resume_step(state, completed);
            &&& completed.offset == record.offset
            &&& resumed.0 == ReadState::Submitted
            &&& resumed.1.offset == record.offset + transferred
            &&& resumed.1.offset >= record.offset
            &&& resumed.2 matches Step::Submit { offset, .. } && offset == record.offset
                + transferred
        }),
{
}

/// No step moves the offset back: not a resumption, not the answer to a
/// submission, not a completion and not a registration.
pub proof fn lemma_offset_never_goes_back(
    state: ReadState,
    record: RecordView,
    outcome: Result<u32, u32>,
    waker: Waker,
    status: u32,
    transferred: u32,
)
    requires
        record.offset + record.transferred <= u64::MAX,
    ensures
        resume_step(state, record).1.offset >= record.offset,
        submitted_step(state, record, outcome, waker).1.offset == record.offset,
        record.complete(status, transferred).0.offset == record.offset,
        record.register(waker).0.offset == record.offset,
{
}

/// The race between the completion and the registration of the handle ends
/// alike whoever wins. After a submission, where the task registers first,
/// it suspends and the completion hands out its handle; where the completion
/// comes first, it hands out nothing and the task is told to resume at once.
/// Either way the task is resumed once, and the resumption finds the same
/// record and gives the same step.
pub proof fn lemma_race_ends_alike(
    record: RecordView,
    waker: Waker,
    status: u32,
    transferred: u32,
)
    requires
        record.wf(),
        record.phase == Phase::InFlight,
        record.waker is None,
    ensures
        ({
            let suspended = submitted_step(
                ReadState::Submitted,
                record,
                Err(ERROR_IO_PENDING),
                waker,
            );
            let completed = suspended.1.complete(status, transferred);
            let early = record.complete(status, transferred);
            let told = submitted_step(ReadState::Submitted, early.0, Err(ERROR_IO_PENDING), waker);
            &&& suspended.2 == Next::Suspend
            &&& completed.1 == Some(waker)
            &&& early.1 is None
            &&& told.2 == Next::Resume
            &&& suspended.0 == told.0
            &&& completed.0 == told.1
            &&& resume_step(suspended.0, completed.0) == resume_step(told.0, told.1)
        }),
{
}

/// Every completion is reported once: the resumption after a successful
/// completion tells the progress callback exactly the bytes that the
/// completion transferred, or nothing where there were none, and leaves no
/// bytes behind, so that a further resumption reports nothing.
pub proof fn lemma_progress_exact(state: ReadState, record: RecordView, transferred: u32)
    requires
        !state.finished(),
        record.wf(),
        record.phase == Phase::InFlight,
        record.offset + transferred <= u64::MAX,
    ensures
        ({
            let completed = record.complete(0, transferred).0;
            let resumed = resume_step(state, completed);
            let again = resume_step(resumed.0, resumed.1);
            &&& resumed.2 matches Step::Submit { progress, .. } && progress == (if transferred
                > 0 {
                Some(transferred)
            } else {
                None
            })
            &&& resumed.1.transferred == 0
            &&& again.2 == Step::Wait
            &&& again.0 == resumed.0
            &&& again.1 == resumed.1
        }),
{
}

/// A submission that the operating system completes at once never suspends
/// the task: no handle is stored, the task is told to resume, and the
/// resumption reports the bytes, moves the offset on by them and asks for the
/// next submission, just as after a completion that the callback delivered.
pub proof fn lemma_at_once_goes_on(record: RecordView, transferred: u32, waker: Waker)
    requires
        record.wf(),
        record.phase == Phase::InFlight,
        record.offset + transferred <= u64::MAX,
    ensures
        ({
            let answered = submitted_step(ReadState::Submitted, record, Ok(transferred), waker);
            let resumed = resume_step(answered.0, answered.1);
            &&& answered.2 == Next::Resume
            &&& !answered.0.finished()
            &&& answered.1.waker is None
            &&& answered.1 == record.complete(0, transferred).0
            &&& resumed.0 == ReadState::Submitted
            &&& resumed.2 == (Step::Submit {
                progress: record.complete(0, transferred).0.progress(),
                offset: (record.offset + transferred) as u64,
            })
            &&& resumed == resume_step(ReadState::Submitted, record.complete(0, transferred).0)
        }),
{
}

/// Only a pending submission suspends the task: any other answer leaves no
/// handle in the record and does not tell the task to suspend.
pub proof fn lemma_only_pending_suspends(
    state: ReadState,
    record: RecordView,
    outcome: Result<u32, u32>,
    waker: Waker,
)
    requires
        record.wf(),
        outcome != Err::<u32, u32>(ERROR_IO_PENDING),
    ensures
        submitted_step(state, record, outcome, waker).2 != Next::Suspend,
        state == ReadState::Submitted ==> submitted_step(state, record, outcome, waker).1.waker
            is None,
{
}

/// A handle stays busy until its read is over: while the handle counts a
/// read that is not over, no resumption, answer, completion or registration
/// frees it unless the step ends the read, and a step that ends the read
/// leaves nothing outstanding.
pub proof fn lemma_busy_until_over(
    handle: HandleView,
    state: ReadState,
    outcome: Result<u32, u32>,
    waker: Waker,
    status: u32,
    transferred: u32,
)
    requires
        handle.record.wf(),
        handle.reading,
        !state.finished(),
    ensures
        ({
            let resumed = resume_step(state, handle.record);
            let after = handle.stepped(resumed.1, ends(state, resumed.0));
            &&& !resumed.0.finished() ==> after.reading && after.busy()
            &&& resumed.0.finished() ==> !after.busy()
        }),
        ({
            let answered = submitted_step(state, handle.record, outcome, waker);
            let after = handle.stepped(answered.1, ends(state, answered.0));
            &&& !answered.0.finished() ==> after.reading && after.busy()
            &&& answered.0.finished() ==> !after.busy()
        }),
        handle.with_record(handle.record.complete(status, transferred).0).busy(),
        handle.with_record(handle.record.register(waker).0).busy(),
{
}

/// One read of a file from its start to its end. It is started by
/// [`AsyncHandle::read`] and stepped with the handle that started it. The
/// handle counts it until it is over; a read that is dropped before that is
/// given up with [`AsyncHandle::abandon`], or the handle stays busy.
#[derive(Debug)]
pub struct ReadOperation {
    state: ReadState,
    descriptor: usize,
}

impl View for ReadOperation {
    type V = ReadView;

    closed spec fn view(&self) -> ReadView {
        ReadView { state: self.state, descriptor: self.descriptor }
    }
}

impl ReadOperation {
    /// A read of which nothing has been submitted yet, for the handle with
    /// this descriptor.
    pub(crate) fn new(descriptor: usize) -> (operation: Self)
        ensures
            operation@ == (ReadView { state: ReadState::NotStarted, descriptor }),
    {
        ReadOperation { state: ReadState::NotStarted, descriptor }
    }

    /// Where the read stands.
    pub fn state(&self) -> (state: ReadState)
        ensures
            state == self@.state,
    {
        self.state
    }

    /// The descriptor of the handle that started the read.
    pub fn descriptor(&self) -> (descriptor: usize)
        ensures
            descriptor == self@.descriptor,
    {
        self.descriptor
    }

    /// Whether the read is over.
    pub fn is_finished(&self) -> (finished: bool)
        ensures
            finished == self@.state.finished(),
    {
        match self.state {
            ReadState::CompletedEof(_) => true,
            ReadState::Failed(_) => true,
            _ => false,
        }
    }

    /// The result of the read, once it is over.
    pub fn result(&self) -> (result: Option<Result<u64, Error>>)
        ensures
            result == self@.state.result(),
    {
        match self.state {
            ReadState::CompletedEof(total) => Some(Ok(total)),
            ReadState::Failed(error) => Some(Err(error)),
            _ => None,
        }
    }

    /// Whether the next resumption would ask for a submission, and so move
    /// the offset on by the bytes that wait in the record.
    pub fn will_submit(&self, handle: &AsyncHandle) -> (submits: bool)
        ensures
            submits == resume_submits(self@.state, handle@.record),
    {
        if self.is_finished() || handle.record().is_in_flight() {
            false
        } else {
            match classify(handle.record().status()) {
                Completion::Success => true,
                _ => false,
            }
        }
    }

    /// Resumes the read: looks at what the last completion recorded and says
    /// what to do next. The handle is the one that started the read; it is
    /// no longer reading once the read is over.
    pub fn resume(&mut self, handle: &mut AsyncHandle) -> (step: Step)
        requires
            old(self)@.descriptor == old(handle)@.descriptor,
            resume_submits(old(self)@.state, old(handle)@.record) ==> old(handle)@.record.offset
                + old(handle)@.record.transferred <= u64::MAX,
        ensures
            final(self)@ == (ReadView {
                state: resume_step(old(self)@.state, old(handle)@.record).0,
                descriptor: old(self)@.descriptor,
            }),
            final(handle)@ == old(handle)@.stepped(
                resume_step(old(self)@.state, old(handle)@.record).1,
                ends(old(self)@.state, resume_step(old(self)@.state, old(handle)@.record).0),
            ),
            step == resume_step(old(self)@.state, old(handle)@.record).2,
    {
        match self.state {
            ReadState::CompletedEof(total) => Step::Finished(Ok(total)),
            ReadState::Failed(error) => Step::Finished(Err(error)),
            _ => {
                let record = handle.record_mut();
                if record.is_in_flight() {
                    Step::Wait
                } else {
                    let status = record.status();
                    match classify(status) {
                        Completion::EndOfFile => {
                            let total = record.offset();
                            record.finish(status);
                            handle.end_read();
                            self.state = ReadState::CompletedEof(total);
                            Step::Finished(Ok(total))
                        },
                        Completion::Failed(error) => {
                            record.finish(status);
                            handle.end_read();
                            self.state = ReadState::Failed(error);
                            Step::Finished(Err(error))
                        },
                        Completion::Success => {
                            let progress = record.submit();
                            let offset = record.offset();
                            self.state = ReadState::Submitted;
                            Step::Submit { progress, offset }
                        },
                    }
                }
            },
        }
    }

    /// Takes the answer of the operating system to the submission that the
    /// last resumption asked for, with the handle by which the task can be
    /// resumed, and says what to do next. The handle is the one that started
    /// the read; it is no longer reading once the read is over.
    pub fn submitted(
        &mut self,
        handle: &mut AsyncHandle,
        outcome: Result<u32, u32>,
        waker: Waker,
    ) -> (next: Next)
        requires
            old(self)@.descriptor == old(handle)@.descriptor,
        ensures
            final(self)@ == (ReadView {
                state: submitted_step(old(self)@.state, old(handle)@.record, outcome, waker).0,
                descriptor: old(self)@.descriptor,
            }),
            final(handle)@ == old(handle)@.stepped(
                submitted_step(old(self)@.state, old(handle)@.record, outcome, waker).1,
                ends(
                    old(self)@.state,
                    submitted_step(old(self)@.state, old(handle)@.record, outcome, waker).0,
                ),
            ),
            next == submitted_step(old(self)@.state, old(handle)@.record, outcome, waker).2,
    {
        match self.state {
            ReadState::Submitted => {
                let record = handle.record_mut();
                match outcome {
                    Ok(transferred) => {
                        let _ = record.complete(0, transferred);
                        self.state = ReadState::CompletedOk;
                        Next::Resume
                    },
                    Err(code) => {
                        if code == ERROR_IO_PENDING {
                            if record.register(waker) {
                                Next::Suspend
                            } else {
                                Next::Resume
                            }
                        } else {
                            match classify(code) {
                                Completion::EndOfFile => {
                                    let total = record.offset();
                                    record.finish(code);
                                    handle.end_read();
                                    self.state = ReadState::CompletedEof(total);
                                    Next::Finished(Ok(total))
                                },
                                _ => {
                                    let error = Error::from_os_code(code);
                                    record.finish(code);
                                    handle.end_read();
                                    self.state = ReadState::Failed(error);
                                    Next::Finished(Err(error))
                                },
                            }
                        }
                    },
                }
            },
            _ => Next::Resume,
        }
    }
}

} // verus!
