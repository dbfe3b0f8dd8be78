//! The future state machine, the poller's classifications, and the
//! control-block lifecycle.

use tokio_iocp::io_port::future::{
    classify_submit, OpFuture, OpState, PollOutcome, SubmitStatus,
};
use tokio_iocp::io_port::waker::{OverlappedWaker, OverlappedWakerBase};
use tokio_iocp::io_port::{classify_dequeue, deliver_packet, CbOwnership};
use tokio_iocp::IoError;

#[test]
fn submit_classification() {
    // A nonzero return settles the call, whatever the error code says.
    assert_eq!(classify_submit(true, 997), SubmitStatus::Ready);
    // Queued.
    assert_eq!(classify_submit(false, 997), SubmitStatus::Pending);
    // Benign codes settle the call.
    assert_eq!(classify_submit(false, 0), SubmitStatus::Ready);
    assert_eq!(classify_submit(false, 996), SubmitStatus::Ready);
    assert_eq!(classify_submit(false, 38), SubmitStatus::Ready);
    assert_eq!(classify_submit(false, 535), SubmitStatus::Ready);
    assert_eq!(classify_submit(false, 232), SubmitStatus::Ready);
    // Anything else is a rejection carrying its code.
    assert_eq!(classify_submit(false, 5), SubmitStatus::Failed(5));
    assert_eq!(classify_submit(false, 1450), SubmitStatus::Failed(1450));
}

#[test]
fn failed_submission_resolves_once() {
    let mut f = OpFuture::new(SubmitStatus::Failed(87));
    assert_eq!(f.state, OpState::FailedSubmit { code: 87 });
    let outcome = f.resolve_failed();
    assert_eq!(outcome, PollOutcome::Failure(IoError::Submission(87)));
    assert_eq!(f.state, OpState::Finished);
}

#[test]
fn pending_stays_pending_on_incomplete() {
    let mut f = OpFuture::new(SubmitStatus::Pending);
    let outcome = f.poll_step(false, 996, 0, None);
    assert_eq!(outcome, PollOutcome::StillPending);
    assert_eq!(f.state, OpState::Submitted { pending: true });
}

#[test]
fn eof_completes_with_zero_bytes() {
    let mut f = OpFuture::new(SubmitStatus::Pending);
    let outcome = f.poll_step(false, 38, 0, None);
    assert_eq!(outcome, PollOutcome::Success(0));
    assert_eq!(f.state, OpState::Finished);
}

#[test]
fn pending_failure_carries_the_code() {
    let mut f = OpFuture::new(SubmitStatus::Pending);
    let outcome = f.poll_step(false, 64, 0, None);
    assert_eq!(outcome, PollOutcome::Failure(IoError::Completion(64)));
    assert_eq!(f.state, OpState::Finished);
}

#[test]
fn settled_operation_reports_the_transfer_count() {
    let mut f = OpFuture::new(SubmitStatus::Ready);
    let outcome = f.poll_step(true, 0, 14, None);
    assert_eq!(outcome, PollOutcome::Success(14));
    assert_eq!(f.state, OpState::Finished);
}

#[test]
fn stored_error_wins_over_the_transfer_count() {
    let mut f = OpFuture::new(SubmitStatus::Pending);
    let outcome = f.poll_step(true, 0, 14, Some(IoError::Completion(1236)));
    assert_eq!(outcome, PollOutcome::Failure(IoError::Completion(1236)));
    assert_eq!(f.state, OpState::Finished);
}

#[test]
fn drop_cancels_exactly_the_queued_operation() {
    let mut queued = OpFuture::new(SubmitStatus::Pending);
    assert!(queued.on_drop());

    let mut settled = OpFuture::new(SubmitStatus::Ready);
    assert!(!settled.on_drop());

    let mut finished = OpFuture::new(SubmitStatus::Pending);
    finished.poll_step(false, 38, 0, None);
    assert!(!finished.on_drop());
}

#[test]
fn dequeue_classification() {
    // A successful dequeue and the two benign codes carry no error.
    assert_eq!(classify_dequeue(true, 0), None);
    assert_eq!(classify_dequeue(false, 258), None);
    assert_eq!(classify_dequeue(false, 38), None);
    // Anything else travels as a completion-time error.
    assert_eq!(classify_dequeue(false, 995), Some(IoError::Completion(995)));
}

#[test]
fn offset_fields_are_written() {
    let mut base: tokio_iocp::io_port::waker::OverlappedWakerBase<u32> =
        tokio_iocp::io_port::waker::OverlappedWakerBase::new();
    assert_eq!((base.offset, base.offset_high), (0, 0));
    let (low, high) = tokio_iocp::op::split_offset(0xABCD_0000_1234);
    base.set_offset(low, high);
    assert_eq!((base.offset, base.offset_high), (0x1234, 0xABCD));
}

#[test]
fn waker_slot_holds_one_waker() {
    // Any single-threaded token works as the waker in the model.
    let mut base: OverlappedWakerBase<u32> = OverlappedWakerBase::new();
    base.set_waker(1);
    base.set_waker(2);
    assert_eq!(base.take_waker(), Some(2));
    assert_eq!(base.take_waker(), None);
}

#[test]
fn error_slot_round_trip() {
    let mut base: OverlappedWakerBase<u32> = OverlappedWakerBase::new();
    assert_eq!(base.take_err(), None);
    base.set_err(IoError::Completion(1));
    assert_eq!(base.take_err(), Some(IoError::Completion(1)));
    assert_eq!(base.take_err(), None);
}

#[test]
fn delivery_stores_the_error_and_takes_the_waker() {
    let mut cb: OverlappedWaker<u32, Vec<u8>> = OverlappedWaker::new(vec![1, 2]);
    cb.base.set_waker(7);
    let w = deliver_packet(&mut cb, Some(IoError::Completion(1236)));
    assert_eq!(w, Some(7));
    assert_eq!(cb.base.take_err(), Some(IoError::Completion(1236)));
    // The payload is untouched and still present.
    assert_eq!(cb.take_buffer(), vec![1, 2]);
}

#[test]
fn late_delivery_after_drop_wakes_nothing() {
    let mut cb: OverlappedWaker<u32, Vec<u8>> = OverlappedWaker::new(vec![]);
    cb.base.set_waker(7);
    // The drop path removes the waker before cancelling.
    let _ = cb.base.take_waker();
    let w = deliver_packet(&mut cb, None);
    assert_eq!(w, None);
}

#[test]
fn abandoned_operation_is_reclaimed() {
    let mut refs = CbOwnership::on_submit();
    assert!(refs.held_by_future && refs.held_by_kernel);
    // The future is dropped while the operation is pending.
    refs.release_future();
    assert!(!refs.held_by_future && refs.held_by_kernel);
    // The kernel posts the completion; the poller consumes it.
    refs.on_dequeue();
    assert!(!refs.held_by_future && !refs.held_by_kernel);
}

#[test]
fn offset_halves_recombine() {
    let (low, high) = tokio_iocp::op::split_offset(0x1_2345_6789);
    assert_eq!(low, 0x2345_6789);
    assert_eq!(high, 0x1);
    let (low, high) = tokio_iocp::op::split_offset(14);
    assert_eq!((low, high), (14, 0));
}
