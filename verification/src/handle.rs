//! The handle of a file that is open for overlapped reads.

use vstd::prelude::*;
use std::task::Waker;
use crate::read::{ReadOperation, ReadState, ReadView};
use crate::record::{OverlappedWrap, Phase, RecordView};
use crate::status::{error_of, Error};

verus! {

/// What a handle holds, as plain values.
pub struct HandleView {
    /// The descriptor that the operating system gave.
    pub descriptor: usize,
    /// The record of the read on this handle.
    pub record: RecordView,
    /// Whether a read that this handle started is neither over nor given up.
    pub reading: bool,
}

impl HandleView {
    /// Whether a read is outstanding on the handle: one that it started is
    /// not over, or a submission has not completed at the operating system.
    pub open spec fn busy(self) -> bool {
        self.reading || self.record.phase == Phase::InFlight
    }

    /// The handle with another record.
    pub open spec fn with_record(self, record: RecordView) -> HandleView {
        HandleView { record, ..self }
    }

    /// The handle after a step of its read: with the record that the step
    /// left, and no longer reading where the step ended the read.
    pub open spec fn stepped(self, record: RecordView, ended: bool) -> HandleView {
        HandleView { descriptor: self.descriptor, record, reading: self.reading && !ended }
    }
}

/// A file that is open for overlapped reads, with the record of the one read
/// that may be outstanding on it.
#[derive(Debug)]
pub struct AsyncHandle {
    descriptor: usize,
    record: OverlappedWrap,
    reading: bool,
}

impl View for AsyncHandle {
    type V = HandleView;

    closed spec fn view(&self) -> HandleView {
        HandleView { descriptor: self.descriptor, record: self.record@, reading: self.reading }
    }
}

impl AsyncHandle {
    /// Makes the handle of a file from what the operating system answered to
    /// the request to open it for overlapped reads and to bind the completion
    /// callback to it: the descriptor, or the code of the failure. A failure
    /// gives its error and no handle.
    pub fn open(opened: Result<usize, u32>) -> (handle: Result<AsyncHandle, Error>)
        ensures
            match opened {
                Ok(descriptor) => handle matches Ok(h) && h@ == (HandleView {
                    descriptor,
                    record: RecordView::fresh(),
                    reading: false,
                }),
                Err(code) => handle matches Err(error) && error == error_of(code),
            },
    {
        match opened {
            Ok(descriptor) => Ok(
                AsyncHandle { descriptor, record: OverlappedWrap::new(), reading: false },
            ),
            Err(code) => Err(Error::from_os_code(code)),
        }
    }

    /// The descriptor that the operating system gave.
    pub fn descriptor(&self) -> (descriptor: usize)
        ensures
            descriptor == self@.descriptor,
    {
        self.descriptor
    }

    /// The record of the read on this handle.
    pub fn record(&self) -> (record: &OverlappedWrap)
        ensures
            record@ == self@.record,
    {
        &self.record
    }

    /// Whether a read that this handle started is neither over nor given up.
    pub fn is_reading(&self) -> (reading: bool)
        ensures
            reading == self@.reading,
    {
        self.reading
    }

    /// Whether a read is outstanding on the handle.
    pub fn is_busy(&self) -> (busy: bool)
        ensures
            busy == self@.busy(),
    {
        self.reading || self.record.is_in_flight()
    }

    /// Starts a read from the start of the file. While a read is outstanding
    /// the handle is busy and stays as it is; else its record starts afresh
    /// and the read is bound to this handle.
    pub fn read(&mut self) -> (operation: Result<ReadOperation, Error>)
        ensures
            match operation {
                Ok(started) => {
                    &&& !old(self)@.busy()
                    &&& started@ == (ReadView {
                        state: ReadState::NotStarted,
                        descriptor: old(self)@.descriptor,
                    })
                    &&& final(self)@ == (HandleView {
                        descriptor: old(self)@.descriptor,
                        record: RecordView::fresh(),
                        reading: true,
                    })
                },
                Err(error) => {
                    &&& old(self)@.busy()
                    &&& error == Error::Busy
                    &&& final(self)@ == old(self)@
                },
            },
    {
        if self.reading || self.record.is_in_flight() {
            Err(Error::Busy)
        } else {
            self.record = OverlappedWrap::new();
            self.reading = true;
            Ok(ReadOperation::new(self.descriptor))
        }
    }

    /// Gives up a read of this handle. A read that is not over is no longer
    /// counted; the record stays, and while its submission has not completed
    /// the handle stays busy, so that a late completion finds the record. A
    /// read that is over leaves the handle as it is.
    pub fn abandon(&mut self, operation: ReadOperation)
        requires
            operation@.descriptor == old(self)@.descriptor,
        ensures
            final(self)@ == old(self)@.stepped(old(self)@.record, !operation@.state.finished()),
    {
        if !operation.is_finished() {
            self.reading = false;
        }
    }

    /// The completion callback on the record of this handle: see
    /// [`OverlappedWrap::complete`].
    pub fn complete(&mut self, status: u32, transferred: u32) -> (woken: Option<Waker>)
        ensures
            final(self)@ == old(self)@.with_record(
                old(self)@.record.complete(status, transferred).0,
            ),
            woken == old(self)@.record.complete(status, transferred).1,
    {
        self.record.complete(status, transferred)
    }

    /// Offers the handle of the task to the record of this handle: see
    /// [`OverlappedWrap::register`].
    pub fn register(&mut self, waker: Waker) -> (stored: bool)
        ensures
            final(self)@ == old(self)@.with_record(old(self)@.record.register(waker).0),
            stored == old(self)@.record.register(waker).1,
    {
        self.record.register(waker)
    }

    /// Closes the handle. While a read is outstanding the handle is busy and
    /// comes back as it was; else it is gone, and the caller releases the
    /// descriptor that it gets.
    pub fn close(self) -> (closed: Result<usize, (Error, AsyncHandle)>)
        ensures
            match closed {
                Ok(descriptor) => !self@.busy() && descriptor == self@.descriptor,
                Err(refused) => self@.busy() && refused.0 == Error::Busy && refused.1@ == self@,
            },
    {
        if self.reading || self.record.is_in_flight() {
            Err((Error::Busy, self))
        } else {
            Ok(self.descriptor)
        }
    }

    /// The result of a close, from what the operating system answered to the
    /// release of the descriptor: a failure keeps its code.
    pub fn released(outcome: Result<(), u32>) -> (result: Result<(), Error>)
        ensures
            match outcome {
                Ok(_) => result is Ok,
                Err(code) => result == Err::<(), Error>(Error::OsError(code)),
            },
    {
        match outcome {
            Ok(_) => Ok(()),
            Err(code) => Err(Error::OsError(code)),
        }
    }

    /// The record, for the steps of the reading task.
    pub(crate) fn record_mut(&mut self) -> (record: &mut OverlappedWrap)
        ensures
            record@ == old(self)@.record,
            final(self)@ == old(self)@.with_record(final(record)@),
    {
        &mut self.record
    }

    /// Notes that the read of this handle is over.
    pub(crate) fn end_read(&mut self)
        ensures
            final(self)@ == old(self)@.stepped(old(self)@.record, true),
    {
        self.reading = false;
    }
}

} // verus!
