//! A read that drains a file: how many answers of the operating system it
//! takes and what is reported on the way.
//!
//! The file is modelled by what the operating system answers to a read at an
//! offset. The task starts the read, which makes the first submission. From
//! then on every submission is answered in one of two ways. Either the read
//! is pending: the task suspends, the completion arrives through the
//! callback and the task is resumed. Or the read is answered at once: the
//! task is not suspended and goes on in the same breath.

use vstd::prelude::*;
use std::task::Waker;
use crate::read::{resume_step, submitted_step, Next, ReadState, Step};
use crate::record::{Phase, RecordView};
use crate::status::{ERROR_HANDLE_EOF, ERROR_IO_PENDING, STATUS_END_OF_FILE};

verus! {

/// What a read of up to `capacity` bytes at `offset` gives for a file of
/// `size` bytes: the status and the bytes transferred. At or past the end it
/// is the end-of-file status with no bytes; before the end it is success with
/// as many bytes as are left, up to `capacity`.
pub open spec fn file_answer(size: u64, capacity: u32, offset: u64) -> (u32, u32) {
    if offset >= size {
        (STATUS_END_OF_FILE, 0)
    } else if size - offset >= capacity {
        (0, capacity)
    } else {
        (0, (size - offset) as u32)
    }
}

/// The same answer as the operating system gives it at once to the
/// submission: the bytes, or the code for the end of the file.
pub open spec fn answer_at_once(size: u64, capacity: u32, offset: u64) -> Result<u32, u32> {
    if offset >= size {
        Err(ERROR_HANDLE_EOF)
    } else {
        Ok(file_answer(size, capacity, offset).1)
    }
}

/// The number of reads of `capacity` bytes that it takes to cover `size`
/// bytes: `size / capacity`, rounded up.
pub open spec fn chunks(size: u64, capacity: u32) -> nat {
    ((size + capacity - 1) / (capacity as int)) as nat
}

/// What a step tells the progress callback, as a number of bytes.
pub open spec fn reported_by(step: Step) -> nat {
    match step {
        Step::Submit { progress: Some(bytes), .. } => bytes as nat,
        _ => 0,
    }
}

/// One round of a draining read, from a state in which a submission has just
/// been made: the answer of the operating system and what the read does with
/// it. It gives the state and the record after the round and the bytes that
/// the round told the progress callback.
///
/// Where the answer comes at once, the task takes it and, unless that ended
/// the read, is resumed in the same breath. Else the operating system
/// answers that the read is pending, the task offers `waker` and suspends,
/// the completion reports what the file gives at the record's offset, and
/// the task is resumed.
pub open spec fn round(
    size: u64,
    capacity: u32,
    waker: Waker,
    at_once: bool,
    state: ReadState,
    record: RecordView,
) -> (ReadState, RecordView, nat) {
    if at_once {
        let answered = submitted_step(
            state,
            record,
            answer_at_once(size, capacity, record.offset),
            waker,
        );
        if answered.2 == Next::Resume {
            let resumed = resume_step(answered.0, answered.1);
            (resumed.0, resumed.1, reported_by(resumed.2))
        } else {
            (answered.0, answered.1, 0)
        }
    } else {
        let suspended = submitted_step(state, record, Err(ERROR_IO_PENDING), waker);
        let answer = file_answer(size, capacity, suspended.1.offset);
        let completed = suspended.1.complete(answer.0, answer.1);
        let resumed = resume_step(suspended.0, completed.0);
        (resumed.0, resumed.1, reported_by(resumed.2))
    }
}

/// The state and the record of a draining read after its start and `rounds`
/// rounds, and the bytes that the progress callback has been told in all.
/// `at_once` says of each submission, counted from zero, whether the
/// operating system answers it at once.
pub open spec fn drained(
    size: u64,
    capacity: u32,
    waker: Waker,
    at_once: spec_fn(nat) -> bool,
    rounds: nat,
) -> (ReadState, RecordView, nat)
    decreases rounds,
{
    if rounds == 0 {
        let started = resume_step(ReadState::NotStarted, RecordView::fresh());
        (started.0, started.1, reported_by(started.2))
    } else {
        let before = drained(size, capacity, waker, at_once, (rounds - 1) as nat);
        let after = round(
            size,
            capacity,
            waker,
            at_once((rounds - 1) as nat),
            before.0,
            before.1,
        );
        (after.0, after.1, before.2 + after.2)
    }
}

/// The bytes that `count` reads of `capacity` bytes cover of a file of
/// `size` bytes.
pub open spec fn covered(size: u64, capacity: u32, count: nat) -> nat {
    if count * capacity <= size {
        (count * capacity) as nat
    } else {
        size as nat
    }
}

proof fn lemma_chunks_bound(size: u64, capacity: u32, count: nat)
    requires
        capacity > 0,
    ensures
        count < chunks(size, capacity) <==> count * capacity < size,
{
    let total: int = size + capacity - 1;
    let divisor: int = capacity as int;
    let quotient: int = total / divisor;
    let count: int = count as int;
    vstd::arithmetic::div_mod::lemma_fundamental_div_mod(total, divisor);
    vstd::arithmetic::div_mod::lemma_mod_bound(total, divisor);
    vstd::arithmetic::div_mod::lemma_div_pos_is_pos(total, divisor);
    assert(total == divisor * quotient + total % divisor);
    if count < quotient {
        assert(count * divisor <= (quotient - 1) * divisor) by (nonlinear_arith)
            requires
                count <= quotient - 1,
                divisor > 0,
        ;
        assert((quotient - 1) * divisor == divisor * quotient - divisor) by (nonlinear_arith);
    } else {
        assert(count * divisor >= quotient * divisor) by (nonlinear_arith)
            requires
                count >= quotient,
                divisor > 0,
        ;
        assert(quotient * divisor == divisor * quotient) by (nonlinear_arith);
    }
}

/// While the file is not covered, a draining read is not over, whichever of
/// its submissions are answered at once: after its start and `rounds` rounds
/// its next submission is outstanding at the offset that is covered so far,
/// and the progress callback has been told just that many bytes.
pub proof fn lemma_drained_before_end(
    size: u64,
    capacity: u32,
    waker: Waker,
    at_once: spec_fn(nat) -> bool,
    rounds: nat,
)
    requires
        capacity > 0,
        rounds <= chunks(size, capacity),
    ensures
        drained(size, capacity, waker, at_once, rounds).0 == ReadState::Submitted,
        drained(size, capacity, waker, at_once, rounds).1 == (RecordView {
            offset: covered(size, capacity, rounds) as u64,
            transferred: 0,
            status: 0,
            phase: Phase::InFlight,
            waker: None,
        }),
        drained(size, capacity, waker, at_once, rounds).2 == covered(size, capacity, rounds),
        covered(size, capacity, rounds) <= size,
    decreases rounds,
{
    if rounds == 0 {
        assert(covered(size, capacity, 0) == 0) by (nonlinear_arith);
    } else {
        let earlier = (rounds - 1) as nat;
        lemma_drained_before_end(size, capacity, waker, at_once, earlier);
        lemma_chunks_bound(size, capacity, earlier);
        assert(rounds * capacity == earlier * capacity + capacity) by (nonlinear_arith)
            requires
                rounds == earlier + 1,
        ;
    }
}

/// A read drains a file of `size` bytes through a buffer of `capacity` bytes
/// in `size / capacity`, rounded up, plus one rounds, whichever of its
/// submissions are answered at once: it is not over before, the last round
/// finds the end of the file, the read is over with `size` as its total, and
/// the progress callback has been told `size` bytes in all. Where every
/// submission is pending, each round is one resumption of the task.
pub proof fn lemma_drained_at_end(
    size: u64,
    capacity: u32,
    waker: Waker,
    at_once: spec_fn(nat) -> bool,
)
    requires
        capacity > 0,
    ensures
        forall|rounds: nat|
            rounds <= chunks(size, capacity) ==> !(#[trigger] drained(
                size,
                capacity,
                waker,
                at_once,
                rounds,
            )).0.finished(),
        drained(size, capacity, waker, at_once, chunks(size, capacity) + 1).0
            == ReadState::CompletedEof(size),
        drained(size, capacity, waker, at_once, chunks(size, capacity) + 1).0.result() == Some(
            Ok::<u64, crate::status::Error>(size),
        ),
        drained(size, capacity, waker, at_once, chunks(size, capacity) + 1).2 == size,
{
    let last = chunks(size, capacity);
    assert forall|rounds: nat| rounds <= last implies !(#[trigger] drained(
        size,
        capacity,
        waker,
        at_once,
        rounds,
    )).0.finished() by {
        lemma_drained_before_end(size, capacity, waker, at_once, rounds);
    }
    lemma_drained_before_end(size, capacity, waker, at_once, last);
    lemma_chunks_bound(size, capacity, last);
}

/// What the progress callback is told for a run of successful completions:
/// the bytes of each, in their order, but for those that transferred
/// nothing.
pub open spec fn told(completions: Seq<u32>) -> Seq<u32>
    decreases completions.len(),
{
    if completions.len() == 0 {
        Seq::empty()
    } else if completions.last() > 0 {
        told(completions.drop_last()).push(completions.last())
    } else {
        told(completions.drop_last())
    }
}

/// The bytes that a run of completions transferred in all.
pub open spec fn total(completions: Seq<u32>) -> nat
    decreases completions.len(),
{
    if completions.len() == 0 {
        0
    } else {
        total(completions.drop_last()) + completions.last() as nat
    }
}

/// A read that is suspended on each of its submissions in turn and resumed
/// after successful completions with these bytes: its state and its record
/// after the last resumption, and the log of what the resumptions told the
/// progress callback.
pub open spec fn replayed(
    state: ReadState,
    record: RecordView,
    waker: Waker,
    completions: Seq<u32>,
) -> (ReadState, RecordView, Seq<u32>)
    decreases completions.len(),
{
    if completions.len() == 0 {
        (state, record, Seq::empty())
    } else {
        let before = replayed(state, record, waker, completions.drop_last());
        let suspended = submitted_step(before.0, before.1, Err(ERROR_IO_PENDING), waker);
        let completed = suspended.1.complete(0, completions.last());
        let resumed = resume_step(suspended.0, completed.0);
        (
            resumed.0,
            resumed.1,
            match resumed.2 {
                Step::Submit { progress: Some(bytes), .. } => before.2.push(bytes),
                _ => before.2,
            },
        )
    }
}

/// The log of the progress callback is the run of the completions: after any
/// run of successful completions, delivered one per suspension, the callback
/// has been told the bytes of each completion that transferred any, once
/// each and in the order of the submissions, the offset has moved on by their
/// sum, and the next submission is outstanding. A completion that then
/// carries the end-of-file status ends the read with that offset as its
/// total and tells the callback nothing.
pub proof fn lemma_log_follows_completions(
    record: RecordView,
    waker: Waker,
    completions: Seq<u32>,
)
    requires
        record.wf(),
        record.phase == Phase::InFlight,
        record.waker is None,
        record.offset + total(completions) <= u64::MAX,
    ensures
        ({
            let after = replayed(ReadState::Submitted, record, waker, completions);
            let suspended = submitted_step(after.0, after.1, Err(ERROR_IO_PENDING), waker);
            let ended = resume_step(suspended.0, suspended.1.complete(STATUS_END_OF_FILE, 0).0);
            &&& after.0 == ReadState::Submitted
            &&& after.1.wf()
            &&& after.1.phase == Phase::InFlight
            &&& after.1.waker is None
            &&& after.1.offset == record.offset + total(completions)
            &&& after.2 == told(completions)
            &&& ended.0 == ReadState::CompletedEof(after.1.offset)
            &&& ended.2 == Step::Finished(Ok(after.1.offset))
        }),
    decreases completions.len(),
{
    if completions.len() > 0 {
        lemma_log_follows_completions(record, waker, completions.drop_last());
    }
}

/// Where every completion transferred something, the log of the progress
/// callback is the run of the completions itself: none is skipped and none
/// is merged with another.
pub proof fn lemma_told_all(completions: Seq<u32>)
    requires
        forall|i: int| 0 <= i < completions.len() ==> completions[i] > 0,
    ensures
        told(completions) == completions,
    decreases completions.len(),
{
    if completions.len() > 0 {
        lemma_told_all(completions.drop_last());
        assert(completions.drop_last().push(completions.last()) =~= completions);
    }
}

} // verus!
