//! Streaming controller: drives repeated replay cycles to process a
//! payload larger than the bounded region capacity, one region-sized
//! chunk per replay. The protocol processes only full regions; padding a
//! short final chunk out to a whole region is the caller's policy.
//! Because the cipher transforms each fixed-size block independently and
//! carries no state across chunks, chunked processing reproduces
//! single-region processing byte for byte; that invariant is proved here.

use vstd::prelude::*;
use crate::worker::Worker;

verus! {

/// `f` applied to each `bs`-byte block of `data` in order, concatenated.
/// This is how a stateless per-block cipher kernel covers a whole region:
/// no chaining, no carry between blocks. A trailing partial block (absent
/// when `bs` divides the length) is transformed as one piece.
pub open spec fn spec_blockwise(f: spec_fn(Seq<u8>) -> Seq<u8>, data: Seq<u8>, bs: nat) -> Seq<u8>
    decreases data.len(),
{
    if bs == 0 || data.len() == 0 {
        Seq::<u8>::empty()
    } else if data.len() < bs {
        f(data)
    } else {
        f(data.take(bs as int)) + spec_blockwise(f, data.skip(bs as int), bs)
    }
}

/// The concatenation of `chunks`, in order.
pub open spec fn spec_concat(chunks: Seq<Seq<u8>>) -> Seq<u8>
    decreases chunks.len(),
{
    if chunks.len() == 0 {
        Seq::<u8>::empty()
    } else {
        chunks[0] + spec_concat(chunks.skip(1))
    }
}

/// Splitting off a block-aligned prefix commutes with blockwise
/// application: transforming `a + b` block by block equals transforming
/// `a` and `b` separately and concatenating, whenever `a` is a whole
/// number of blocks.
pub proof fn lemma_blockwise_append(
    f: spec_fn(Seq<u8>) -> Seq<u8>,
    a: Seq<u8>,
    b: Seq<u8>,
    bs: nat,
)
    requires
        bs > 0,
        a.len() % bs == 0,
    ensures
        spec_blockwise(f, a + b, bs) == spec_blockwise(f, a, bs) + spec_blockwise(f, b, bs),
    decreases a.len(),
{
    if a.len() == 0 {
        assert(a + b =~= b);
        assert(spec_blockwise(f, a, bs) + spec_blockwise(f, b, bs)
            =~= spec_blockwise(f, b, bs));
    } else {
        assert(a.len() >= bs) by {
            if a.len() < bs {
                vstd::arithmetic::div_mod::lemma_small_mod(a.len(), bs);
            }
        }
        let ab = a + b;
        assert(ab.take(bs as int) =~= a.take(bs as int));
        assert(ab.skip(bs as int) =~= a.skip(bs as int) + b);
        assert(a.skip(bs as int).len() % bs == 0) by {
            vstd::arithmetic::div_mod::lemma_mod_sub_multiples_vanish(
                a.len() as int, bs as int);
        }
        lemma_blockwise_append(f, a.skip(bs as int), b, bs);
        assert(spec_blockwise(f, ab, bs)
            =~= spec_blockwise(f, a, bs) + spec_blockwise(f, b, bs));
    }
}

/// Chunk invariance: if a payload `p` is split into consecutive chunks of
/// `c` bytes each, `c` a positive multiple of the block size, and each
/// chunk is transformed block by block in its own independent replay
/// cycle, then the concatenated results equal the blockwise transform of
/// `p` processed as one region. The transform is stateless across chunk
/// boundaries, so the split cannot be observed in the output.
pub proof fn lemma_chunk_invariance(
    f: spec_fn(Seq<u8>) -> Seq<u8>,
    p: Seq<u8>,
    c: nat,
    bs: nat,
    results: Seq<Seq<u8>>,
)
    requires
        bs > 0,
        c > 0,
        c % bs == 0,
        p.len() == results.len() * c,
        forall|i: int| 0 <= i < results.len()
            ==> #[trigger] results[i] == spec_blockwise(f, p.subrange(i * c, (i + 1) * c), bs),
    ensures
        spec_concat(results) == spec_blockwise(f, p, bs),
    decreases results.len(),
{
    if results.len() == 0 {
        assert(results.len() * c == 0) by (nonlinear_arith)
            requires results.len() == 0;
        assert(p.len() == 0);
    } else {
        let head = p.take(c as int);
        let tail = p.skip(c as int);
        assert(c <= p.len()) by (nonlinear_arith)
            requires p.len() == results.len() * c, results.len() >= 1, c > 0;
        assert(p =~= head + tail);
        lemma_blockwise_append(f, head, tail, bs);

        let i0: int = 0;
        assert(results[i0] == spec_blockwise(f, p.subrange(i0 * c, (i0 + 1) * c), bs));
        assert(p.subrange(i0 * c, (i0 + 1) * c) =~= head);
        assert(results[0] == spec_blockwise(f, head, bs));

        assert(tail.len() == (results.len() - 1) * c) by (nonlinear_arith)
            requires tail.len() == p.len() - c, p.len() == results.len() * c,
                results.len() >= 1, c > 0;
        assert forall|i: int| 0 <= i < results.skip(1).len()
            implies #[trigger] results.skip(1)[i]
                == spec_blockwise(f, tail.subrange(i * c, (i + 1) * c), bs) by {
            assert(results.skip(1)[i] == results[i + 1]);
            assert(results[i + 1]
                == spec_blockwise(f, p.subrange((i + 1) * c, (i + 2) * c), bs));
            assert((i + 1) * c == i * c + c && (i + 2) * c == (i + 1) * c + c)
                by (nonlinear_arith);
            assert((i + 1) * c + c <= p.len()) by (nonlinear_arith)
                requires p.len() == results.len() * c, 0 <= i < results.len() - 1, c > 0;
            assert(tail.subrange(i * c, (i + 1) * c)
                =~= p.subrange(i * c + c, (i + 1) * c + c));
        }
        lemma_chunk_invariance(f, tail, c, bs, results.skip(1));
        assert(spec_concat(results) =~= spec_blockwise(f, p, bs));
    }
}

/// How many replay cycles a payload of `length` bytes needs with region
/// capacity `capacity`: the number of regions that cover it, counting a
/// final partial region as one whole cycle.
pub fn chunk_count(length: u64, capacity: u64) -> (r: u64)
    requires
        capacity > 0,
    ensures
        r == (length + capacity - 1) / (capacity as int),
        r * capacity >= length,
        length > 0 ==> (r - 1) * capacity < length,
{
    proof {
        vstd::arithmetic::div_mod::lemma_fundamental_div_mod(length as int, capacity as int);
    }
    let whole: u64 = length / capacity;
    let r: u64 = if length % capacity == 0 {
        whole
    } else {
        proof {
            assert(whole < u64::MAX) by (nonlinear_arith)
                requires
                    whole == length / capacity,
                    capacity > 0,
                    length == capacity * (length / capacity) + length % capacity,
                    0 < length % capacity,
                    length <= u64::MAX;
        }
        whole + 1
    };
    proof {
        if length % capacity == 0 {
            assert(r * capacity >= length) by (nonlinear_arith)
                requires
                    r == length / capacity,
                    capacity > 0,
                    length == capacity * (length / capacity) + length % capacity,
                    length % capacity == 0;
            assert(r == (length + capacity - 1) / (capacity as int)) by (nonlinear_arith)
                requires
                    r == length / capacity,
                    capacity > 0,
                    length == capacity * (length / capacity) + length % capacity,
                    length % capacity == 0;
            if length > 0 {
                assert((r - 1) * capacity < length) by (nonlinear_arith)
                    requires
                        r == length / capacity,
                        capacity > 0,
                        length > 0,
                        length == capacity * (length / capacity) + length % capacity,
                        length % capacity == 0;
            }
        } else {
            assert(whole + 1 <= u64::MAX && r * capacity >= length
                && r == (length + capacity - 1) / (capacity as int)
                && (r - 1) * capacity < length) by (nonlinear_arith)
                requires
                    whole == length / capacity,
                    r == whole + 1,
                    capacity > 0,
                    length == capacity * (length / capacity) + length % capacity,
                    0 < length % capacity < capacity,
                    length <= u64::MAX;
        }
    }
    r
}

/// One streaming job: a payload processed as consecutive region-sized
/// chunks, each through an independent replay cycle, the transformed
/// chunks delivered in order. If a replay fails at chunk `k`, the chunks
/// before `k` have already been delivered into the output and the chunks
/// from `k` on are never processed.
pub struct StreamJob {
    i_payload: Vec<u8>,
    i_capacity: usize,
    i_offset: usize,
    i_output: Vec<u8>,
    i_results: Ghost<Seq<Seq<u8>>>,
}

impl StreamJob {
    /// The payload being processed.
    pub closed spec fn payload(&self) -> Seq<u8> {
        self.i_payload@
    }

    /// The region capacity: bytes per chunk, fixed for the whole job.
    pub closed spec fn chunk_capacity(&self) -> nat {
        self.i_capacity as nat
    }

    /// How many payload bytes have completed their round trip.
    pub closed spec fn offset(&self) -> nat {
        self.i_offset as nat
    }

    /// The transformed bytes delivered so far, in payload order.
    pub closed spec fn output(&self) -> Seq<u8> {
        self.i_output@
    }

    /// The per-chunk results delivered so far, in payload order.
    pub closed spec fn results(&self) -> Seq<Seq<u8>> {
        self.i_results@
    }

    /// Well-formedness: the capacity is positive and divides the payload
    /// length, progress never passes the end and stays chunk-aligned,
    /// exactly one output byte has been delivered per processed byte, and
    /// the output is precisely the delivered per-chunk results in order.
    pub open spec fn wf(&self) -> bool {
        &&& self.chunk_capacity() > 0
        &&& self.payload().len() % self.chunk_capacity() == 0
        &&& self.offset() <= self.payload().len()
        &&& self.offset() % self.chunk_capacity() == 0
        &&& self.output().len() == self.offset()
        &&& self.output() == spec_concat(self.results())
        &&& self.results().len() * self.chunk_capacity() == self.offset()
    }

    /// Start a job over `payload` with region capacity `capacity`. The
    /// protocol processes only full regions, so the payload length must
    /// be a multiple of the capacity; padding is caller policy and
    /// happens before the job is built.
    pub fn new(payload: Vec<u8>, capacity: usize) -> (r: StreamJob)
        requires
            capacity > 0,
            payload@.len() % (capacity as nat) == 0,
        ensures
            r.wf(),
            r.payload() == payload@,
            r.chunk_capacity() == capacity,
            r.offset() == 0,
            r.output() == Seq::<u8>::empty(),
            r.results() == Seq::<Seq<u8>>::empty(),
    {
        let job = StreamJob {
            i_payload: payload,
            i_capacity: capacity,
            i_offset: 0,
            i_output: Vec::new(),
            i_results: Ghost(Seq::empty()),
        };
        assert(job.i_output@ =~= Seq::<u8>::empty());
        proof {
            assert(job.results().len() * job.chunk_capacity() == 0) by (nonlinear_arith)
                requires job.results().len() == 0;
        }
        job
    }

    /// Whether every chunk has completed its round trip.
    pub fn done(&self) -> (r: bool)
        requires
            self.wf(),
        ensures
            r <==> self.offset() == self.payload().len(),
    {
        self.i_offset == self.i_payload.len()
    }

    /// The next unprocessed chunk: one region's worth of payload starting
    /// at the current offset.
    pub fn next_chunk(&self) -> (r: Vec<u8>)
        requires
            self.wf(),
            self.offset() < self.payload().len(),
        ensures
            r@ == self.payload().subrange(
                self.offset() as int,
                self.offset() + self.chunk_capacity() as int,
            ),
            r@.len() == self.chunk_capacity(),
    {
        let _plen: usize = self.i_payload.len();
        proof {
            lemma_chunk_fits(self.payload().len(), self.offset(), self.chunk_capacity());
        }
        let end: usize = self.i_offset + self.i_capacity;
        let mut out: Vec<u8> = Vec::new();
        let mut k: usize = self.i_offset;
        while k < end
            invariant
                self.i_offset <= k <= end,
                end <= self.i_payload@.len(),
                out@ =~= self.i_payload@.subrange(self.i_offset as int, k as int),
            decreases end - k,
        {
            out.push(self.i_payload[k]);
            k = k + 1;
            assert(out@ =~= self.i_payload@.subrange(self.i_offset as int, k as int));
        }
        out
    }

    /// Stage the next chunk into the worker's host-visible region, ready
    /// for the next replay.
    pub fn stage_into(&self, worker: &mut Worker)
        requires
            self.wf(),
            self.offset() < self.payload().len(),
            old(worker).wf(),
            old(worker).state() is Ready,
            old(worker).capacity() == self.chunk_capacity(),
        ensures
            final(worker).wf(),
            final(worker).state() is Ready,
            final(worker).host().contents() == self.payload().subrange(
                self.offset() as int,
                self.offset() + self.chunk_capacity() as int,
            ),
            final(worker).sequence() == old(worker).sequence(),
            final(worker).kernel() == old(worker).kernel(),
            final(worker).cipher() == old(worker).cipher(),
            final(worker).capacity() == old(worker).capacity(),
    {
        let chunk = self.next_chunk();
        worker.write_into(chunk.as_slice());
    }

    /// Deliver one transformed chunk — the device's response for the
    /// chunk staged at the current offset — and advance past it.
    pub fn push_result(&mut self, result: Vec<u8>)
        requires
            old(self).wf(),
            old(self).offset() < old(self).payload().len(),
            result@.len() == old(self).chunk_capacity(),
        ensures
            final(self).wf(),
            final(self).payload() == old(self).payload(),
            final(self).chunk_capacity() == old(self).chunk_capacity(),
            final(self).offset() == old(self).offset() + old(self).chunk_capacity(),
            final(self).output() == old(self).output() + result@,
            final(self).results() == old(self).results().push(result@),
    {
        let _plen: usize = self.i_payload.len();
        proof {
            lemma_chunk_fits(self.payload().len(), self.offset(), self.chunk_capacity());
            vstd::arithmetic::div_mod::lemma_add_mod_noop(
                self.i_offset as int,
                self.i_capacity as int,
                self.i_capacity as int,
            );
            vstd::arithmetic::div_mod::lemma_mod_self_0(self.i_capacity as int);
            vstd::arithmetic::div_mod::lemma_small_mod(0nat, self.chunk_capacity());
            lemma_concat_push(self.results(), result@);
            assert((self.results().len() + 1) * self.chunk_capacity()
                == self.results().len() * self.chunk_capacity() + self.chunk_capacity())
                by (nonlinear_arith);
        }
        let mut result_bytes = result;
        proof {
            self.i_results@ = self.i_results@.push(result_bytes@);
        }
        self.i_output.append(&mut result_bytes);
        self.i_offset = self.i_offset + self.i_capacity;
    }

    /// Read the worker's host-visible region — the completed round trip's
    /// result — and deliver it as the current chunk's output.
    pub fn accept_from(&mut self, worker: &Worker)
        requires
            old(self).wf(),
            old(self).offset() < old(self).payload().len(),
            worker.wf(),
            worker.state() is Ready,
            worker.capacity() == old(self).chunk_capacity(),
        ensures
            final(self).wf(),
            final(self).payload() == old(self).payload(),
            final(self).chunk_capacity() == old(self).chunk_capacity(),
            final(self).offset() == old(self).offset() + old(self).chunk_capacity(),
            final(self).output() == old(self).output() + worker.host().contents(),
            final(self).results() == old(self).results().push(worker.host().contents()),
    {
        let mut result: Vec<u8> = Vec::new();
        worker.copy_into(&mut result);
        self.push_result(result);
    }

    /// The bytes delivered so far; after a failed replay these are exactly
    /// the chunks that completed before the failure.
    pub fn output_so_far(&self) -> (r: &Vec<u8>)
        ensures
            r@ == self.output(),
    {
        &self.i_output
    }

    /// Finish the job and hand the full transformed payload to the caller.
    pub fn into_output(self) -> (r: Vec<u8>)
        requires
            self.wf(),
            self.offset() == self.payload().len(),
        ensures
            r@ == self.output(),
            r@.len() == self.payload().len(),
    {
        self.i_output
    }
}

/// Appending one more chunk extends the concatenation by exactly it.
proof fn lemma_concat_push(chunks: Seq<Seq<u8>>, x: Seq<u8>)
    ensures
        spec_concat(chunks.push(x)) == spec_concat(chunks) + x,
    decreases chunks.len(),
{
    if chunks.len() == 0 {
        let single = chunks.push(x);
        assert(single[0] == x);
        assert(single.skip(1) =~= Seq::<Seq<u8>>::empty());
        assert(spec_concat(single) == x + spec_concat(Seq::<Seq<u8>>::empty()));
        assert(x + Seq::<u8>::empty() =~= x);
        assert(Seq::<u8>::empty() + x =~= x);
    } else {
        assert(chunks.push(x).skip(1) =~= chunks.skip(1).push(x));
        lemma_concat_push(chunks.skip(1), x);
        assert(spec_concat(chunks.push(x)) =~= spec_concat(chunks) + x);
    }
}

/// Chunk invariance at the job level: when a finished job's delivered
/// results are each the blockwise transform of their own chunk — as a
/// stateless per-block kernel produces through independent replay cycles
/// — the job's output is the blockwise transform of the whole payload,
/// exactly what processing it as one region would have produced.
pub proof fn lemma_job_reproduces_single_region(
    job: StreamJob,
    f: spec_fn(Seq<u8>) -> Seq<u8>,
    bs: nat,
)
    requires
        job.wf(),
        job.offset() == job.payload().len(),
        bs > 0,
        job.chunk_capacity() % bs == 0,
        forall|i: int| 0 <= i < job.results().len()
            ==> #[trigger] job.results()[i] == spec_blockwise(
                f,
                job.payload().subrange(
                    i * job.chunk_capacity(),
                    (i + 1) * job.chunk_capacity(),
                ),
                bs,
            ),
    ensures
        job.output() == spec_blockwise(f, job.payload(), bs),
{
    lemma_chunk_invariance(f, job.payload(), job.chunk_capacity(), bs, job.results());
}

/// Determinism of replayed streaming, as far as the host side reaches:
/// the worker and controller carry no hidden state, so two finished jobs
/// over the same payload and capacity whose replay cycles drew their
/// responses from one and the same stateless per-block transform deliver
/// byte-identical outputs. Whether the device itself answers identical
/// staged bytes identically is the kernel's obligation, outside this
/// library.
pub proof fn lemma_stream_deterministic(
    job1: StreamJob,
    job2: StreamJob,
    f: spec_fn(Seq<u8>) -> Seq<u8>,
    bs: nat,
)
    requires
        job1.wf(),
        job2.wf(),
        job1.payload() == job2.payload(),
        job1.chunk_capacity() == job2.chunk_capacity(),
        job1.offset() == job1.payload().len(),
        job2.offset() == job2.payload().len(),
        bs > 0,
        job1.chunk_capacity() % bs == 0,
        forall|i: int| 0 <= i < job1.results().len()
            ==> #[trigger] job1.results()[i] == spec_blockwise(
                f,
                job1.payload().subrange(
                    i * job1.chunk_capacity(),
                    (i + 1) * job1.chunk_capacity(),
                ),
                bs,
            ),
        forall|i: int| 0 <= i < job2.results().len()
            ==> #[trigger] job2.results()[i] == spec_blockwise(
                f,
                job2.payload().subrange(
                    i * job2.chunk_capacity(),
                    (i + 1) * job2.chunk_capacity(),
                ),
                bs,
            ),
    ensures
        job1.output() == job2.output(),
{
    lemma_job_reproduces_single_region(job1, f, bs);
    lemma_job_reproduces_single_region(job2, f, bs);
}

/// A chunk-aligned offset strictly inside a chunk-aligned length leaves
/// room for one more whole chunk.
proof fn lemma_chunk_fits(len: nat, offset: nat, c: nat)
    requires
        c > 0,
        len % c == 0,
        offset % c == 0,
        offset < len,
    ensures
        offset + c <= len,
{
    let gap = (len - offset) as nat;
    assert(gap % c == 0) by {
        vstd::arithmetic::div_mod::lemma_sub_mod_noop(len as int, offset as int, c as int);
        vstd::arithmetic::div_mod::lemma_small_mod(0nat, c);
    }
    if gap < c {
        vstd::arithmetic::div_mod::lemma_small_mod(gap, c);
    }
}

} // verus!
