//! The two custody wrappers: one buffer, or an ordered group of buffers
//! treated as a single gather/scatter target.
//!
//! The vectored wrapper distributes a transfer count greedily across its
//! buffers: each buffer in order is filled to its capacity until the
//! remainder is smaller than the next capacity, that buffer receives the
//! remainder, and the rest are untouched. `lemma_scatter_distribution`
//! states that law in full.

use vstd::prelude::*;

use crate::buf::IoBuf;
use crate::buf::IoBufMut;
use crate::buf::with_buf::WithBuf;
use crate::buf::with_buf::WithBufMut;
use crate::buf::with_buf::WrapBuf;
use crate::buf::with_buf::WrapBufMut;

verus! {

/// The sum of the capacities of the first `i` buffers.
pub open spec fn caps_prefix_sum<T: IoBuf>(bufs: Seq<T>, i: int) -> int
    decreases i,
{
    if i <= 0 {
        0
    } else {
        caps_prefix_sum(bufs, i - 1) + bufs[i - 1].buf_cap()
    }
}

/// The share of a transfer of `n` bytes that falls to buffer `i` under the
/// greedy distribution: what is left of `n` after the capacities before it,
/// clamped to `[0, capacity of i]`.
pub open spec fn scatter_chunk<T: IoBuf>(bufs: Seq<T>, n: int, i: int) -> int {
    vstd::math::min(vstd::math::max(n - caps_prefix_sum(bufs, i), 0), bufs[i].buf_cap())
}

/// The sum of the initialized lengths of the first `i` buffers.
pub open spec fn lens_prefix_sum<T: IoBuf>(bufs: Seq<T>, i: int) -> int
    decreases i,
{
    if i <= 0 {
        0
    } else {
        lens_prefix_sum(bufs, i - 1) + bufs[i - 1].buf_bytes().len()
    }
}

/// Custody of a single buffer.
pub struct BufWrapper<T> {
    /// The buffer under custody; `None` once it has been given back.
    pub buffer: Option<T>,
}

impl<T: IoBuf> WrapBuf for BufWrapper<T> {
    type Buffer = T;

    open spec fn buffer_wf(buffer: T) -> bool {
        buffer.buf_wf()
    }

    open spec fn has_buf(&self) -> bool {
        self.buffer is Some
    }

    open spec fn buf_view(&self) -> T {
        self.buffer.unwrap()
    }

    fn new(buffer: T) -> (r: Self) {
        BufWrapper { buffer: Some(buffer) }
    }

    fn take_buf(&mut self) -> (r: T) {
        self.buffer.take().unwrap()
    }
}

impl<T: IoBufMut> WrapBufMut for BufWrapper<T> {
    open spec fn total_cap(&self) -> int {
        self.buf_view().buf_cap()
    }

    /// The held buffer's initialized length is set to the transfer count.
    open spec fn set_len_post(pre: Self, post: Self, len: int) -> bool {
        post.buf_view() == pre.buf_view().with_len(len)
    }

    fn set_len(&mut self, len: usize) {
        proof {
            old(self).buf_view().lemma_with_len(len as int);
        }
        match &mut self.buffer {
            Some(b) => {
                b.set_buf_len(len);
            },
            None => {},
        }
    }
}

impl<T: IoBuf> WithBuf for BufWrapper<T> {
    /// One gather segment: the initialized bytes.
    open spec fn spec_submit_lens(&self) -> Seq<int> {
        seq![self.buf_view().buf_bytes().len() as int]
    }

    fn submit_lens(&self) -> (r: Vec<usize>) {
        let mut r: Vec<usize> = Vec::new();
        match &self.buffer {
            Some(b) => {
                r.push(b.buf_len());
            },
            None => {},
        }
        proof {
            assert(r@.map_values(|v: usize| v as int) =~= self.spec_submit_lens());
        }
        r
    }
}

impl<T: IoBufMut> WithBufMut for BufWrapper<T> {
    /// One scatter segment: the whole capacity.
    open spec fn spec_recv_lens(&self) -> Seq<int> {
        seq![self.buf_view().buf_cap()]
    }

    fn recv_lens(&self) -> (r: Vec<usize>) {
        let mut r: Vec<usize> = Vec::new();
        match &self.buffer {
            Some(b) => {
                r.push(b.buf_capacity());
            },
            None => {},
        }
        proof {
            assert(r@.map_values(|v: usize| v as int) =~= self.spec_recv_lens());
        }
        r
    }
}

/// Custody of an ordered group of buffers forming one scatter/gather target.
pub struct VectoredBufWrapper<T> {
    /// The buffers under custody; `None` once they have been given back.
    pub buffer: Option<Vec<T>>,
}

impl<T: IoBuf> WrapBuf for VectoredBufWrapper<T> {
    type Buffer = Vec<T>;

    open spec fn buffer_wf(buffer: Vec<T>) -> bool {
        forall|j: int| 0 <= j < buffer@.len() ==> (#[trigger] buffer@[j]).buf_wf()
    }

    open spec fn has_buf(&self) -> bool {
        self.buffer is Some
    }

    open spec fn buf_view(&self) -> Vec<T> {
        self.buffer.unwrap()
    }

    fn new(buffer: Vec<T>) -> (r: Self) {
        VectoredBufWrapper { buffer: Some(buffer) }
    }

    fn take_buf(&mut self) -> (r: Vec<T>) {
        self.buffer.take().unwrap()
    }
}

impl<T: IoBufMut> WrapBufMut for VectoredBufWrapper<T> {
    open spec fn total_cap(&self) -> int {
        caps_prefix_sum(self.buf_view()@, self.buf_view()@.len() as int)
    }

    /// Every buffer's initialized length is set to its greedy share of the
    /// transfer count.
    open spec fn set_len_post(pre: Self, post: Self, len: int) -> bool {
        let b = pre.buf_view()@;
        let c = post.buf_view()@;
        &&& c.len() == b.len()
        &&& forall|j: int|
            0 <= j < b.len() ==> (#[trigger] c[j]) == b[j].with_len(scatter_chunk(b, len, j))
    }

    fn set_len(&mut self, len: usize) {
        let mut bufs = self.buffer.take().unwrap();
        let ghost orig: Seq<T> = bufs@;
        let ghost n: int = len as int;
        let mut remaining: usize = len;
        let count = bufs.len();
        let mut i: usize = 0;
        while i < count
            invariant
                count == bufs@.len(),
                count == orig.len(),
                i <= count,
                forall|j: int| 0 <= j < orig.len() ==> (#[trigger] orig[j]).buf_wf(),
                forall|j: int|
                    0 <= j < i ==> (#[trigger] bufs@[j]) == orig[j].with_len(
                        scatter_chunk(orig, n, j),
                    ),
                forall|j: int| i <= j < count ==> (#[trigger] bufs@[j]) == orig[j],
                remaining as int == vstd::math::max(n - caps_prefix_sum(orig, i as int), 0),
                n == len as int,
            decreases count - i,
        {
            proof {
                orig[i as int].lemma_buf_wf();
                assert(caps_prefix_sum(orig, i as int + 1) == caps_prefix_sum(orig, i as int)
                    + orig[i as int].buf_cap());
            }
            let cap = bufs[i].buf_capacity();
            let target = if remaining >= cap {
                cap
            } else {
                remaining
            };
            proof {
                assert(target as int == scatter_chunk(orig, n, i as int));
            }
            let b = &mut bufs[i];
            b.set_buf_len(target);
            if remaining >= cap {
                remaining = remaining - cap;
            } else {
                remaining = 0;
            }
            i = i + 1;
        }
        proof {
            assert forall|j: int| 0 <= j < orig.len() implies (#[trigger] bufs@[j]).buf_wf()
                && bufs@[j].buf_cap() == orig[j].buf_cap() by {
                orig[j].lemma_buf_wf();
                orig[j].lemma_with_len(scatter_chunk(orig, n, j));
            }
            lemma_caps_prefix_sum_congruent(orig, bufs@, orig.len() as int);
        }
        self.buffer = Some(bufs);
    }
}

impl<T: IoBuf> WithBuf for VectoredBufWrapper<T> {
    /// One gather segment per buffer: its initialized bytes.
    open spec fn spec_submit_lens(&self) -> Seq<int> {
        self.buf_view()@.map_values(|b: T| b.buf_bytes().len() as int)
    }

    fn submit_lens(&self) -> (r: Vec<usize>) {
        let mut r: Vec<usize> = Vec::new();
        match &self.buffer {
            Some(bufs) => {
                let mut i: usize = 0;
                while i < bufs.len()
                    invariant
                        i <= bufs@.len(),
                        forall|j: int| 0 <= j < bufs@.len() ==> (#[trigger] bufs@[j]).buf_wf(),
                        r@.len() == i,
                        forall|j: int|
                            0 <= j < i ==> (#[trigger] r@[j]) as int == bufs@[j].buf_bytes().len(),
                    decreases bufs@.len() - i,
                {
                    r.push(bufs[i].buf_len());
                    i = i + 1;
                }
            },
            None => {},
        }
        proof {
            assert(r@.map_values(|v: usize| v as int) =~= self.spec_submit_lens());
        }
        r
    }
}

impl<T: IoBufMut> WithBufMut for VectoredBufWrapper<T> {
    /// One scatter segment per buffer: its whole capacity.
    open spec fn spec_recv_lens(&self) -> Seq<int> {
        self.buf_view()@.map_values(|b: T| b.buf_cap())
    }

    fn recv_lens(&self) -> (r: Vec<usize>) {
        let mut r: Vec<usize> = Vec::new();
        match &self.buffer {
            Some(bufs) => {
                let mut i: usize = 0;
                while i < bufs.len()
                    invariant
                        i <= bufs@.len(),
                        forall|j: int| 0 <= j < bufs@.len() ==> (#[trigger] bufs@[j]).buf_wf(),
                        r@.len() == i,
                        forall|j: int|
                            0 <= j < i ==> (#[trigger] r@[j]) as int == bufs@[j].buf_cap(),
                    decreases bufs@.len() - i,
                {
                    r.push(bufs[i].buf_capacity());
                    i = i + 1;
                }
            },
            None => {},
        }
        proof {
            assert(r@.map_values(|v: usize| v as int) =~= self.spec_recv_lens());
        }
        r
    }
}

/// Prefix sums of capacities agree between two groups whose buffers have
/// equal capacities position by position.
proof fn lemma_caps_prefix_sum_congruent<T: IoBuf>(a: Seq<T>, b: Seq<T>, i: int)
    requires
        a.len() == b.len(),
        forall|j: int| 0 <= j < a.len() ==> (#[trigger] a[j]).buf_cap() == b[j].buf_cap(),
        i <= a.len(),
    ensures
        caps_prefix_sum(a, i) == caps_prefix_sum(b, i),
    decreases i,
{
    if i > 0 {
        lemma_caps_prefix_sum_congruent(a, b, i - 1);
    }
}

/// Prefix sums of capacities are nonnegative and grow with the index.
proof fn lemma_caps_prefix_sum_nonneg<T: IoBuf>(bufs: Seq<T>, i: int)
    requires
        forall|j: int| 0 <= j < bufs.len() ==> (#[trigger] bufs[j]).buf_wf(),
        i <= bufs.len(),
    ensures
        caps_prefix_sum(bufs, i) >= 0,
    decreases i,
{
    if i > 0 {
        lemma_caps_prefix_sum_nonneg(bufs, i - 1);
        bufs[i - 1].lemma_buf_wf();
    }
}

/// The greedy shares of the first `i` buffers sum to `n` as long as their
/// capacities cover `n`, and never to more than `n`.
proof fn lemma_chunk_sum<T: IoBuf>(bufs: Seq<T>, n: int, i: int)
    requires
        forall|j: int| 0 <= j < bufs.len() ==> (#[trigger] bufs[j]).buf_wf(),
        0 <= n,
        0 <= i <= bufs.len(),
    ensures
        chunk_sum(bufs, n, i) == vstd::math::min(n, caps_prefix_sum(bufs, i)),
    decreases i,
{
    if i > 0 {
        lemma_chunk_sum(bufs, n, i - 1);
        lemma_caps_prefix_sum_nonneg(bufs, i - 1);
        bufs[i - 1].lemma_buf_wf();
    }
}

/// The sum of the greedy shares of the first `i` buffers.
pub open spec fn chunk_sum<T: IoBuf>(bufs: Seq<T>, n: int, i: int) -> int
    decreases i,
{
    if i <= 0 {
        0
    } else {
        chunk_sum(bufs, n, i - 1) + scatter_chunk(bufs, n, i - 1)
    }
}

/// The distribution law of the vectored wrapper: after a transfer of `n`
/// bytes is published into a group of empty buffers of capacities
/// `c_0, c_1, ...` with `n` at most their sum, buffer `i` holds
/// `min(max(n - (c_0 + ... + c_{i-1}), 0), c_i)` initialized bytes, and the
/// initialized lengths sum to exactly `n`.
pub proof fn lemma_scatter_distribution<T: IoBufMut>(pre: Seq<T>, post: Seq<T>, n: int)
    requires
        forall|j: int| 0 <= j < pre.len() ==> (#[trigger] pre[j]).buf_wf(),
        forall|j: int| 0 <= j < pre.len() ==> (#[trigger] pre[j]).buf_bytes().len() == 0,
        post.len() == pre.len(),
        forall|j: int|
            0 <= j < pre.len() ==> (#[trigger] post[j]) == pre[j].with_len(
                scatter_chunk(pre, n, j),
            ),
        0 <= n <= caps_prefix_sum(pre, pre.len() as int),
    ensures
        forall|j: int|
            0 <= j < post.len() ==> (#[trigger] post[j]).buf_bytes().len() == scatter_chunk(
                pre,
                n,
                j,
            ),
        lens_prefix_sum(post, post.len() as int) == n,
{
    assert forall|j: int| 0 <= j < post.len() implies (#[trigger] post[j]).buf_bytes().len()
        == scatter_chunk(pre, n, j) by {
        pre[j].lemma_buf_wf();
        lemma_caps_prefix_sum_nonneg(pre, j);
        pre[j].lemma_with_len(scatter_chunk(pre, n, j));
    }
    lemma_lens_sum_matches_chunks(pre, post, n, pre.len() as int);
    lemma_chunk_sum(pre, n, pre.len() as int);
}

/// The distribution law, stated against the wrapper itself: publishing a
/// transfer of `n` bytes with `set_len` into a wrapper of empty buffers
/// whose capacities cover `n` leaves each buffer with its greedy share,
/// and the shares sum to `n`.
pub proof fn lemma_vectored_set_len<T: IoBufMut>(
    pre: VectoredBufWrapper<T>,
    post: VectoredBufWrapper<T>,
    n: int,
)
    requires
        pre.has_buf(),
        post.has_buf(),
        VectoredBufWrapper::<T>::buffer_wf(pre.buf_view()),
        forall|j: int|
            0 <= j < pre.buf_view()@.len() ==> (#[trigger] pre.buf_view()@[j]).buf_bytes().len()
                == 0,
        VectoredBufWrapper::<T>::set_len_post(pre, post, n),
        0 <= n <= pre.total_cap(),
    ensures
        forall|j: int|
            0 <= j < post.buf_view()@.len() ==> (#[trigger] post.buf_view()@[j]).buf_bytes().len()
                == scatter_chunk(pre.buf_view()@, n, j),
        lens_prefix_sum(post.buf_view()@, post.buf_view()@.len() as int) == n,
{
    lemma_scatter_distribution(pre.buf_view()@, post.buf_view()@, n);
}

/// The initialized lengths after distribution sum as the greedy shares do.
proof fn lemma_lens_sum_matches_chunks<T: IoBufMut>(pre: Seq<T>, post: Seq<T>, n: int, i: int)
    requires
        forall|j: int| 0 <= j < pre.len() ==> (#[trigger] pre[j]).buf_wf(),
        forall|j: int| 0 <= j < pre.len() ==> (#[trigger] pre[j]).buf_bytes().len() == 0,
        post.len() == pre.len(),
        forall|j: int|
            0 <= j < pre.len() ==> (#[trigger] post[j]) == pre[j].with_len(
                scatter_chunk(pre, n, j),
            ),
        0 <= n,
        0 <= i <= pre.len(),
    ensures
        lens_prefix_sum(post, i) == chunk_sum(pre, n, i),
    decreases i,
{
    if i > 0 {
        lemma_lens_sum_matches_chunks(pre, post, n, i - 1);
        pre[i - 1].lemma_buf_wf();
        lemma_caps_prefix_sum_nonneg(pre, i - 1);
        pre[i - 1].lemma_with_len(scatter_chunk(pre, n, i - 1));
    }
}

} // verus!
