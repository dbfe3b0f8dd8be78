//! The operation descriptors: custody, shaping and submission parameters.

use tokio_iocp::buf::buf_wrapper::BufWrapper;
use tokio_iocp::buf::{FixedBuf, IoBuf};
use tokio_iocp::op::connect_named_pipe::ConnectNamedPipe;
use tokio_iocp::op::net::{Accept, Connect, Recv, RecvFrom, RecvOne, Send, SendTo};
use tokio_iocp::op::read_at::ReadAt;
use tokio_iocp::op::write_at::WriteAt;
use tokio_iocp::IoError;

#[test]
fn read_at_offers_capacity_and_publishes_count() {
    let mut op = ReadAt::new(FixedBuf::with_capacity(1024), 0);
    assert_eq!(op.recv_len(), 1024);
    assert_eq!(op.offset_parts(), (0, 0));
    op.set_buf_len(14);
    let (res, buf) = op.result(14);
    assert_eq!(res, Ok(14));
    assert_eq!(buf.buf_len(), 14);
}

#[test]
fn read_at_error_returns_the_buffer() {
    let mut op = ReadAt::new(FixedBuf::with_capacity(8), 4);
    let (res, buf) = op.error(IoError::Completion(64));
    assert_eq!(res, Err(IoError::Completion(64)));
    assert_eq!(buf.buf_capacity(), 8);
}

#[test]
fn write_at_submits_the_initialized_bytes() {
    let data: Vec<u8> = b"hello world".to_vec();
    let mut op = WriteAt::new(data.clone(), 0);
    assert_eq!(op.submit_len(), 11);
    let (res, buf) = op.result(11);
    assert_eq!(res, Ok(11));
    assert_eq!(buf, data);
}

#[test]
fn write_at_with_empty_buffer_transfers_nothing() {
    let mut op = WriteAt::new(Vec::new(), 0);
    assert_eq!(op.submit_len(), 0);
    let (res, buf) = op.result(0);
    assert_eq!(res, Ok(0));
    assert!(buf.is_empty());
}

#[test]
fn write_at_splits_large_offsets() {
    let op = WriteAt::new(vec![1u8], 0xFFFF_FFFF_FFFF);
    assert_eq!(op.offset_parts(), (0xFFFF_FFFF, 0xFFFF));
}

#[test]
fn connect_named_pipe_shapes_unit() {
    let mut op = ConnectNamedPipe::new();
    assert_eq!(op.result(0), (Ok(()), ()));
    let mut op = ConnectNamedPipe::new();
    assert_eq!(op.error(IoError::Completion(535)), (Err(IoError::Completion(535)), ()));
}

#[test]
fn recv_publishes_and_returns() {
    let mut op: RecvOne<FixedBuf> = Recv::new(FixedBuf::with_capacity(32));
    assert_eq!(op.recv_lens(), vec![32]);
    op.set_buf_len(5);
    let (res, buf) = op.result(5);
    assert_eq!(res, Ok(5));
    assert_eq!(buf.buf_len(), 5);
}

#[test]
fn send_returns_the_buffer_unchanged() {
    let mut op: Send<BufWrapper<Vec<u8>>> = Send::new(vec![1, 2, 3]);
    assert_eq!(op.submit_lens(), vec![3]);
    let (res, buf) = op.error(IoError::Completion(10054));
    assert_eq!(res, Err(IoError::Completion(10054)));
    assert_eq!(buf, vec![1, 2, 3]);
}

#[test]
fn recv_from_prepares_an_address_buffer() {
    let op: RecvFrom<BufWrapper<FixedBuf>> = RecvFrom::new(FixedBuf::with_capacity(64));
    assert_eq!(op.addr_buffer.len(), 128);
    assert_eq!(op.addr_size, 128);
    assert!(op.addr_buffer.iter().all(|b| *b == 0));
}

#[test]
fn send_to_carries_the_address() {
    let addr: Vec<u8> = vec![127, 0, 0, 1];
    let mut op: SendTo<BufWrapper<Vec<u8>>, Vec<u8>> = SendTo::new(vec![9], addr.clone());
    assert_eq!(op.addr(), &addr);
    assert_eq!(op.submit_lens(), vec![1]);
    let (res, buf) = op.result(1);
    assert_eq!(res, Ok(1));
    assert_eq!(buf, vec![9]);
}

#[test]
fn connect_discards_its_address() {
    let mut op = Connect::new(vec![1u8, 2]);
    assert_eq!(op.addr(), &vec![1u8, 2]);
    assert_eq!(op.result(0), (Ok(()), ()));
}

#[test]
fn accept_returns_the_handle_on_every_outcome() {
    // The pre-created socket handle is any owned token in the model.
    let mut op: Accept<u64> = Accept::new(41);
    assert_eq!(op.addr_buffer.len(), 256);
    let (res, handle) = op.result(0);
    assert_eq!(res, Ok(()));
    assert_eq!(handle, 41);

    let mut op: Accept<u64> = Accept::new(42);
    let (res, handle) = op.error(IoError::Completion(10061));
    assert_eq!(res, Err(IoError::Completion(10061)));
    assert_eq!(handle, 42);
}
