//! Bounded sample queue: a fixed-capacity FIFO of samples with a
//! drop-oldest overflow policy and a peek-style window read.

use vstd::prelude::*;

use bounded_vec_deque::BoundedVecDeque;

verus! {

#[verifier::external_type_specification]
#[verifier::external_body]
#[verifier::reject_recursive_types(T)]
pub struct ExBoundedVecDeque<T>(BoundedVecDeque<T>);

/// The elements a bounded deque currently holds, front (oldest) first.
pub uninterp spec fn deque_elems(q: BoundedVecDeque<u32>) -> Seq<u32>;

/// The maximum length a bounded deque was created with.
pub uninterp spec fn deque_max(q: BoundedVecDeque<u32>) -> nat;

/// One push into a bounded queue of capacity `cap`: the sample is appended
/// at the back; if the queue is already at capacity the oldest element is
/// discarded first, and a capacity of zero rejects the sample outright.
pub open spec fn push_model(q: Seq<u32>, cap: nat, x: u32) -> Seq<u32> {
    if cap == 0 {
        q
    } else if q.len() < cap {
        q.push(x)
    } else {
        q.skip(1).push(x)
    }
}

/// The contents of a bounded queue of capacity `cap` after pushing every
/// sample of `s`, in order, starting from contents `q`.
pub open spec fn push_all_model(q: Seq<u32>, cap: nat, s: Seq<u32>) -> Seq<u32>
    decreases s.len(),
{
    if s.len() == 0 {
        q
    } else {
        push_model(push_all_model(q, cap, s.drop_last()), cap, s.last())
    }
}

/// The contents of a caller-supplied window buffer `dst` after reading from
/// queue contents `q`: the oldest available samples fill the trailing slots
/// of the window and the leading slots keep the caller's filler values.
pub open spec fn window_sample(q: Seq<u32>, dst: Seq<u32>, i: int) -> u32 {
    if q.len() >= dst.len() {
        q[i]
    } else if i < dst.len() - q.len() {
        dst[i]
    } else {
        q[i - (dst.len() - q.len())]
    }
}

/// The whole window buffer after a read: see `window_sample`.
pub open spec fn window_model(q: Seq<u32>, dst: Seq<u32>) -> Seq<u32> {
    Seq::new(dst.len(), |i: int| window_sample(q, dst, i))
}

/// Relies on `bounded_vec_deque::BoundedVecDeque::new`: a new, empty deque
/// whose maximum length is `max_len`.
#[verifier::external_body]
fn deque_new(max_len: usize) -> (q: BoundedVecDeque<u32>)
    ensures
        deque_elems(q) == Seq::<u32>::empty(),
        deque_max(q) == max_len as nat,
{
    BoundedVecDeque::new(max_len)
}

/// Relies on `bounded_vec_deque::BoundedVecDeque::push_back`: appends at the
/// back, discarding the front element first when the deque is full and
/// rejecting the value when the maximum length is zero; the evicted value,
/// if any, is returned and dropped here.
#[verifier::external_body]
fn deque_push_back(q: &mut BoundedVecDeque<u32>, x: u32)
    ensures
        deque_max(*final(q)) == deque_max(*old(q)),
        deque_elems(*final(q)) == push_model(
            deque_elems(*old(q)),
            deque_max(*old(q)),
            x,
        ),
{
    let _ = q.push_back(x);
}

/// Relies on `std::collections::VecDeque::len`, reached through
/// `BoundedVecDeque`'s `Deref` impl: the number of elements held.
#[verifier::external_body]
fn deque_len(q: &BoundedVecDeque<u32>) -> (n: usize)
    ensures
        n == deque_elems(*q).len(),
{
    q.len()
}

/// Relies on `bounded_vec_deque::BoundedVecDeque`'s `Index` impl: element
/// `i` counted from the front (the oldest element has index 0). The impl
/// panics on an out-of-range index, which the precondition rules out.
#[verifier::external_body]
fn deque_peek(q: &BoundedVecDeque<u32>, i: usize) -> (x: u32)
    requires
        i < deque_elems(*q).len(),
    ensures
        x == deque_elems(*q)[i as int],
{
    q[i]
}

/// A fixed-capacity FIFO of samples. Pushing to a full queue evicts the
/// oldest sample; reading is a peek that never removes samples, so the
/// window advances only through producer-side eviction.
pub struct SampleQueue {
    deque: BoundedVecDeque<u32>,
    capacity: usize,
}

impl View for SampleQueue {
    type V = Seq<u32>;

    closed spec fn view(&self) -> Seq<u32> {
        deque_elems(self.deque)
    }
}

impl SampleQueue {
    /// The fixed capacity the queue was created with.
    pub closed spec fn cap(&self) -> nat {
        self.capacity as nat
    }

    /// The queue never holds more samples than its capacity.
    pub closed spec fn wf(&self) -> bool {
        &&& deque_max(self.deque) == self.capacity as nat
        &&& deque_elems(self.deque).len() <= self.capacity as nat
    }

    /// A new, empty queue of the given fixed capacity.
    pub fn new(capacity: usize) -> (q: SampleQueue)
        ensures
            q.wf(),
            q@ == Seq::<u32>::empty(),
            q.cap() == capacity as nat,
    {
        SampleQueue { deque: deque_new(capacity), capacity }
    }

    /// The fixed capacity.
    pub fn capacity(&self) -> (c: usize)
        ensures
            c as nat == self.cap(),
    {
        self.capacity
    }

    /// How many samples are currently held.
    pub fn len(&self) -> (n: usize)
        ensures
            n == self@.len(),
    {
        deque_len(&self.deque)
    }

    /// Appends one sample; a full queue discards its oldest sample first,
    /// so the length never passes the capacity and never shrinks.
    pub fn push(&mut self, sample: u32)
        requires
            old(self).wf(),
        ensures
            final(self).wf(),
            final(self).cap() == old(self).cap(),
            final(self)@ == push_model(old(self)@, old(self).cap(), sample),
    {
        deque_push_back(&mut self.deque, sample);
    }

    /// Reads the sample at window position `i` (0 is the oldest) without
    /// removing it.
    pub fn peek(&self, i: usize) -> (x: u32)
        requires
            i < self@.len(),
        ensures
            x == self@[i as int],
    {
        deque_peek(&self.deque, i)
    }

    /// Copies the oldest samples into the trailing slots of `out` without
    /// removing them from the queue. When fewer samples are available than
    /// `out` has slots, only the trailing slots are written and the leading
    /// slots keep whatever filler the caller put there.
    pub fn read_window(&self, out: &mut Vec<u32>)
        ensures
            final(out)@ == window_model(self@, old(out)@),
    {
        let ghost orig: Seq<u32> = old(out)@;
        let ghost q: Seq<u32> = self@;
        let total = out.len();
        let have = self.len();
        let start = if have < total {
            total - have
        } else {
            0
        };
        let mut i = start;
        while i < total
            invariant
                start <= i <= total,
                out@.len() == orig.len(),
                total == orig.len(),
                have == q.len(),
                q == self@,
                start == (if q.len() < orig.len() {
                    orig.len() - q.len()
                } else {
                    0
                }),
                forall|k: int| 0 <= k < start ==> out@[k] == orig[k],
                forall|k: int| start <= k < i ==> out@[k] == q[k - start],
                forall|k: int| i <= k < orig.len() ==> out@[k] == orig[k],
            decreases total - i,
        {
            let v = deque_peek(&self.deque, i - start);
            out[i] = v;
            i += 1;
        }
        assert(out@ =~= window_model(q, orig));
    }
}

/// Pushing a sequence and then one more sample is one more push on the
/// result of pushing the sequence.
pub proof fn lemma_push_all_snoc(q: Seq<u32>, cap: nat, s: Seq<u32>, x: u32)
    ensures
        push_all_model(q, cap, s.push(x)) == push_model(push_all_model(q, cap, s), cap, x),
{
    assert(s.push(x).drop_last() =~= s);
}

/// As long as a run of pushes stays within the remaining capacity, the
/// queue afterwards holds its old contents followed by the pushed samples
/// in push order, so a full-length window read returns exactly the pushed
/// samples.
pub proof fn lemma_push_all_within_capacity(q: Seq<u32>, cap: nat, s: Seq<u32>)
    requires
        q.len() + s.len() <= cap,
    ensures
        push_all_model(q, cap, s) == q + s,
    decreases s.len(),
{
    if s.len() == 0 {
        assert(q + s =~= q);
    } else {
        lemma_push_all_within_capacity(q, cap, s.drop_last());
        assert((q + s.drop_last()).push(s.last()) =~= q + s);
    }
}

/// A run of pushes into an empty queue that exceeds the capacity by `k`
/// leaves exactly the capacity's worth of samples, and the `k` oldest
/// samples are the ones no longer present.
pub proof fn lemma_push_all_evicts_oldest(cap: nat, s: Seq<u32>)
    requires
        s.len() >= cap,
    ensures
        push_all_model(Seq::<u32>::empty(), cap, s) == s.skip(s.len() - cap),
        push_all_model(Seq::<u32>::empty(), cap, s).len() == cap,
    decreases s.len(),
{
    if s.len() == cap {
        lemma_push_all_within_capacity(Seq::<u32>::empty(), cap, s);
        assert(Seq::<u32>::empty() + s =~= s.skip(0));
    } else {
        lemma_push_all_evicts_oldest(cap, s.drop_last());
        let prior = push_all_model(Seq::<u32>::empty(), cap, s.drop_last());
        if cap == 0 {
            assert(s.skip(s.len() - cap) =~= prior);
        } else {
            assert(prior.skip(1).push(s.last()) =~= s.skip(s.len() - cap));
        }
    }
}

/// A window read whose buffer is exactly as long as the queue's contents
/// returns those contents unchanged.
pub proof fn lemma_window_reads_contents(q: Seq<u32>, dst: Seq<u32>)
    requires
        dst.len() == q.len(),
    ensures
        window_model(q, dst) == q,
{
    assert(window_model(q, dst) =~= q);
}

} // verus!
