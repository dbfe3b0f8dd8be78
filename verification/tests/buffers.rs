//! The buffer protocol: lengths, capacities, slices and the vectored
//! distribution.

use tokio_iocp::buf::buf_wrapper::{BufWrapper, VectoredBufWrapper};
use tokio_iocp::buf::slice::Slice;
use tokio_iocp::buf::with_buf::{WithBuf, WithBufMut, WrapBuf, WrapBufMut};
use tokio_iocp::buf::{FixedBuf, IoBuf, IoBufMut};

#[test]
fn vec_buffer_is_fully_initialized() {
    let v: Vec<u8> = vec![1, 2, 3];
    assert_eq!(v.buf_len(), 3);
    assert_eq!(v.buf_capacity(), 3);
}

#[test]
fn vec_set_buf_len_within_capacity_changes_nothing() {
    let mut v: Vec<u8> = vec![9, 9];
    v.set_buf_len(1);
    assert_eq!(v.buf_len(), 2);
    assert_eq!(v, vec![9, 9]);
}

#[test]
fn fixed_buf_starts_empty() {
    let b = FixedBuf::with_capacity(8);
    assert_eq!(b.buf_len(), 0);
    assert_eq!(b.buf_capacity(), 8);
}

#[test]
fn fixed_buf_publishes_written_bytes() {
    let mut b = FixedBuf::with_capacity(4);
    b.write_byte(0, 10);
    b.write_byte(1, 20);
    assert_eq!(b.buf_len(), 0);
    b.set_buf_len(2);
    assert_eq!(b.buf_len(), 2);
    assert_eq!(b.byte_at(0), 10);
    assert_eq!(b.byte_at(1), 20);
    assert_eq!(b.into_vec(), vec![10, 20]);
}

#[test]
fn fixed_buf_len_never_shrinks() {
    let mut b = FixedBuf::from_vec(vec![7, 8, 9]);
    b.set_buf_len(1);
    assert_eq!(b.buf_len(), 3);
    assert_eq!(b.into_vec(), vec![7, 8, 9]);
}

#[test]
fn slice_exposes_the_window() {
    // Parent: capacity 10, 6 initialized bytes.
    let mut parent = FixedBuf::with_capacity(10);
    for (i, v) in [1u8, 2, 3, 4, 5, 6].iter().enumerate() {
        parent.write_byte(i, *v);
    }
    parent.set_buf_len(6);
    let s = Slice::new(parent, 2, 8);
    // Initialized length: min(end, parent len) - begin = 6 - 2.
    assert_eq!(s.buf_len(), 4);
    // Capacity: end - begin.
    assert_eq!(s.buf_capacity(), 6);
    assert_eq!(s.begin(), 2);
    assert_eq!(s.end(), 8);
}

#[test]
fn slice_set_len_grows_the_parent_from_begin() {
    let parent = FixedBuf::with_capacity(10);
    let mut s = Slice::new(parent, 0, 8);
    s.set_buf_len(5);
    assert_eq!(s.buf_len(), 5);
    let parent = s.into_inner();
    assert_eq!(parent.buf_len(), 5);

    let mut inner = FixedBuf::with_capacity(10);
    inner.set_buf_len(3);
    let mut s = Slice::new(inner, 3, 9);
    s.set_buf_len(4);
    // The slice's 4 bytes end at parent offset 3 + 4.
    assert_eq!(s.buf_len(), 4);
    assert_eq!(s.into_inner().buf_len(), 7);
}

#[test]
fn slice_inner_access() {
    let mut s = Slice::new(FixedBuf::from_vec(vec![1, 2, 3]), 1, 3);
    assert_eq!(s.as_inner().buf_len(), 3);
    s.as_inner_mut().write_byte(1, 9);
    assert_eq!(s.as_inner().byte_at(1), 9);
    assert_eq!(s.into_inner().into_vec(), vec![1, 9, 3]);
}

#[test]
fn wrapper_returns_the_buffer_it_took() {
    let mut w: BufWrapper<Vec<u8>> = BufWrapper::new(vec![5, 6, 7]);
    assert_eq!(w.submit_lens(), vec![3]);
    let back = w.take_buf();
    assert_eq!(back, vec![5, 6, 7]);
}

#[test]
fn scalar_wrapper_offers_capacity_for_receives() {
    let w: BufWrapper<FixedBuf> = BufWrapper::new(FixedBuf::with_capacity(16));
    assert_eq!(w.recv_lens(), vec![16]);
}

#[test]
fn scalar_wrapper_set_len_publishes() {
    let mut w: BufWrapper<FixedBuf> = BufWrapper::new(FixedBuf::with_capacity(16));
    w.set_len(9);
    let b = w.take_buf();
    assert_eq!(b.buf_len(), 9);
}

#[test]
fn vectored_wrapper_reports_each_segment() {
    let bufs = vec![
        FixedBuf::from_vec(vec![1, 2]),
        FixedBuf::from_vec(vec![3]),
        FixedBuf::from_vec(vec![4, 5, 6]),
    ];
    let w: VectoredBufWrapper<FixedBuf> = VectoredBufWrapper::new(bufs);
    assert_eq!(w.submit_lens(), vec![2, 1, 3]);
    assert_eq!(w.recv_lens(), vec![2, 1, 3]);
}

#[test]
fn vectored_distribution_fills_greedily() {
    // Capacities 4, 4, 4 and a transfer of 6: the first buffer fills, the
    // second takes the remainder, the third stays empty.
    let bufs = vec![
        FixedBuf::with_capacity(4),
        FixedBuf::with_capacity(4),
        FixedBuf::with_capacity(4),
    ];
    let mut w: VectoredBufWrapper<FixedBuf> = VectoredBufWrapper::new(bufs);
    w.set_len(6);
    let bufs = w.take_buf();
    let lens: Vec<usize> = bufs.iter().map(|b| b.buf_len()).collect();
    assert_eq!(lens, vec![4, 2, 0]);
    assert_eq!(lens.iter().sum::<usize>(), 6);
}

#[test]
fn vectored_distribution_exact_total() {
    let bufs = vec![FixedBuf::with_capacity(2), FixedBuf::with_capacity(3)];
    let mut w: VectoredBufWrapper<FixedBuf> = VectoredBufWrapper::new(bufs);
    w.set_len(5);
    let lens: Vec<usize> = w.take_buf().iter().map(|b| b.buf_len()).collect();
    assert_eq!(lens, vec![2, 3]);
}

#[test]
fn vectored_distribution_never_shrinks_full_buffers() {
    // Plain vectors are already fully initialized: the distribution keeps
    // their lengths whatever the transfer count says.
    let bufs: Vec<Vec<u8>> = vec![vec![1, 2], vec![3, 4, 5]];
    let mut w: VectoredBufWrapper<Vec<u8>> = VectoredBufWrapper::new(bufs);
    w.set_len(4);
    let bufs = w.take_buf();
    assert_eq!(bufs, vec![vec![1, 2], vec![3, 4, 5]]);
}

#[test]
fn vectored_distribution_of_nothing() {
    let bufs = vec![FixedBuf::with_capacity(2), FixedBuf::with_capacity(3)];
    let mut w: VectoredBufWrapper<FixedBuf> = VectoredBufWrapper::new(bufs);
    w.set_len(0);
    let lens: Vec<usize> = w.take_buf().iter().map(|b| b.buf_len()).collect();
    assert_eq!(lens, vec![0, 0]);
}
