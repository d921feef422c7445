//! Demultiplexer and multiplexer: moving samples between a wide interleaved
//! stream and the per-channel bounded queues.
//!
//! A wide frame holds `width` samples; the channel with base offset `off`
//! owns the two consecutive slots `off` and `off + 1` of every frame. The
//! `j`-th sample of a channel's stream (two per frame) therefore lives at
//! index `slot(width, off, j)` of the wide buffer.

use vstd::prelude::*;

use vstd::arithmetic::div_mod::{lemma_fundamental_div_mod, lemma_fundamental_div_mod_converse};

use crate::queue::{
    lemma_push_all_snoc, lemma_push_all_within_capacity, push_all_model, window_model,
    SampleQueue,
};

verus! {

/// Index of the `j`-th sample of a channel with base offset `off` inside a
/// wide interleaved stream of frame width `width`.
pub open spec fn slot(width: int, off: int, j: int) -> int {
    (j / 2) * width + off + (j % 2)
}

/// The samples belonging to one channel, in stream order, drawn from a wide
/// interleaved buffer of `frames` frames.
pub open spec fn channel_slices(input: Seq<u32>, frames: nat, width: nat, off: nat) -> Seq<u32> {
    Seq::new(2 * frames, |j: int| input[slot(width as int, off as int, j)])
}

/// Two distinct (channel, sample index) pairs of one wide stream never name
/// the same buffer index, as long as the channels' two-slot ranges are
/// disjoint and lie inside the frame.
pub proof fn lemma_slot_distinct(width: int, off1: int, j1: int, off2: int, j2: int)
    requires
        0 <= off1,
        off1 + 2 <= width,
        0 <= off2,
        off2 + 2 <= width,
        off1 == off2 || off1 + 2 <= off2 || off2 + 2 <= off1,
        0 <= j1,
        0 <= j2,
        !(off1 == off2 && j1 == j2),
    ensures
        slot(width, off1, j1) != slot(width, off2, j2),
{
    let f1 = j1 / 2;
    let r1 = off1 + j1 % 2;
    let f2 = j2 / 2;
    let r2 = off2 + j2 % 2;
    lemma_fundamental_div_mod(j1, 2);
    lemma_fundamental_div_mod(j2, 2);
    if slot(width, off1, j1) == slot(width, off2, j2) {
        let p = f1 * width + r1;
        lemma_fundamental_div_mod_converse(p, width, f1, r1);
        lemma_fundamental_div_mod_converse(p, width, f2, r2);
        assert(f1 == f2 && r1 == r2);
        assert(off1 == off2 && j1 % 2 == j2 % 2);
        assert(j1 == j2);
    }
}

/// A channel slot of a wide stream always lies inside the buffer that
/// holds `frames` frames of `width` samples each.
pub proof fn lemma_slot_in_range(width: int, off: int, frames: int, j: int)
    requires
        0 <= off,
        off + 2 <= width,
        0 <= j < 2 * frames,
    ensures
        0 <= slot(width, off, j) < frames * width,
{
    lemma_fundamental_div_mod(j, 2);
    assert(0 <= j % 2 < 2);
    assert(0 <= j / 2 < frames);
    assert(0 <= (j / 2) * width && (j / 2) * width + width <= frames * width)
        by (nonlinear_arith)
        requires
            0 <= j / 2,
            j / 2 < frames,
            0 <= width,
    ;
}

/// Pushes the two samples of every frame that belong to the channel with
/// base offset `off` into that channel's queue, oldest frame first.
pub fn push_channel(q: &mut SampleQueue, input: &Vec<u32>, frames: usize, width: usize, off: usize)
    requires
        old(q).wf(),
        off + 2 <= width,
        input@.len() == frames * width,
    ensures
        final(q).wf(),
        final(q).cap() == old(q).cap(),
        final(q)@ == push_all_model(
            old(q)@,
            old(q).cap(),
            channel_slices(input@, frames as nat, width as nat, off as nat),
        ),
{
    let ghost q0 = old(q)@;
    let ghost cap = old(q).cap();
    proof {
        vstd::std_specs::vec::axiom_spec_len(input);
    }
    let mut f: usize = 0;
    while f < frames
        invariant
            f <= frames,
            q.wf(),
            q.cap() == cap,
            off + 2 <= width,
            input@.len() == frames * width,
            frames * width <= usize::MAX,
            q@ == push_all_model(q0, cap, channel_slices(input@, f as nat, width as nat, off as nat)),
        decreases frames - f,
    {
        proof {
            assert(f * width + width <= frames * width) by (nonlinear_arith)
                requires
                    f < frames,
                    0 <= width,
            ;
        }
        let base = f * width + off;
        let left = input[base];
        let right = input[base + 1];
        let ghost before = channel_slices(input@, f as nat, width as nat, off as nat);
        let ghost after = channel_slices(input@, (f + 1) as nat, width as nat, off as nat);
        q.push(left);
        q.push(right);
        proof {
            assert(after[2 * f as int] == left && after[2 * f as int + 1] == right);
            assert(after =~= before.push(left).push(right));
            lemma_push_all_snoc(q0, cap, before, left);
            lemma_push_all_snoc(q0, cap, before.push(left), right);
        }
        f += 1;
    }
}

/// Wide-side demultiplexer: splits `frames` interleaved wide frames across
/// the per-channel queues; channel `c` of the table receives the two
/// samples at its base offset of every frame, oldest frame first.
pub fn demux_wide(
    queues: &mut Vec<SampleQueue>,
    offsets: &Vec<usize>,
    width: usize,
    input: &Vec<u32>,
    frames: usize,
)
    requires
        old(queues)@.len() == offsets@.len(),
        forall|c: int| 0 <= c < offsets@.len() ==> #[trigger] offsets@[c] + 2 <= width,
        forall|c: int| 0 <= c < old(queues)@.len() ==> (#[trigger] old(queues)@[c]).wf(),
        input@.len() == frames * width,
    ensures
        final(queues)@.len() == old(queues)@.len(),
        forall|c: int| 0 <= c < old(queues)@.len() ==> (#[trigger] final(queues)@[c]).wf()
            && final(queues)@[c].cap() == old(queues)@[c].cap()
            && final(queues)@[c]@ == push_all_model(
                old(queues)@[c]@,
                old(queues)@[c].cap(),
                channel_slices(input@, frames as nat, width as nat, offsets@[c] as nat),
            ),
{
    let ghost qs0 = old(queues)@;
    let mut c: usize = 0;
    while c < queues.len()
        invariant
            c <= qs0.len(),
            queues@.len() == qs0.len(),
            qs0.len() == offsets@.len(),
            forall|k: int| 0 <= k < offsets@.len() ==> #[trigger] offsets@[k] + 2 <= width,
            forall|k: int| 0 <= k < qs0.len() ==> (#[trigger] qs0[k]).wf(),
            input@.len() == frames * width,
            forall|k: int| 0 <= k < c ==> (#[trigger] queues@[k]).wf()
                && queues@[k].cap() == qs0[k].cap()
                && queues@[k]@ == push_all_model(
                    qs0[k]@,
                    qs0[k].cap(),
                    channel_slices(input@, frames as nat, width as nat, offsets@[k] as nat),
                ),
            forall|k: int| c <= k < qs0.len() ==> #[trigger] queues@[k] == qs0[k],
        decreases qs0.len() - c,
    {
        let off = offsets[c];
        let q = queue_at(queues, c);
        push_channel(q, input, frames, width, off);
        c += 1;
    }
}

/// A mutable borrow of one queue of the arena.
pub(crate) fn queue_at(v: &mut Vec<SampleQueue>, i: usize) -> (q: &mut SampleQueue)
    requires
        i < old(v)@.len(),
    ensures
        *q == old(v)@[i as int],
        final(v)@ == old(v)@.update(i as int, *final(q)),
{
    &mut v[i]
}

/// Endpoint-side demultiplexer: an endpoint's two-channel interleaved
/// capture buffer is pushed sample by sample into that endpoint's single
/// queue, in buffer order.
pub fn demux_endpoint(q: &mut SampleQueue, input: &Vec<u32>, frames: usize)
    requires
        old(q).wf(),
        input@.len() == frames * 2,
    ensures
        final(q).wf(),
        final(q).cap() == old(q).cap(),
        final(q)@ == push_all_model(old(q)@, old(q).cap(), input@),
{
    let ghost q0 = old(q)@;
    let ghost cap = old(q).cap();
    let mut i: usize = 0;
    while i < input.len()
        invariant
            i <= input@.len(),
            q.wf(),
            q.cap() == cap,
            q@ == push_all_model(q0, cap, input@.take(i as int)),
        decreases input@.len() - i,
    {
        let v = input[i];
        q.push(v);
        proof {
            lemma_push_all_snoc(q0, cap, input@.take(i as int), v);
            assert(input@.take(i as int).push(v) =~= input@.take(i as int + 1));
        }
        i += 1;
    }
    proof {
        assert(input@.take(input@.len() as int) =~= input@);
    }
}

/// Whether buffer index `i` is one of the indices the wide-side multiplexer
/// fills: a slot of some channel `c` whose sample index `j` is available in
/// that channel's queue.
pub open spec fn slot_written(
    offsets: Seq<usize>,
    queues: Seq<SampleQueue>,
    width: int,
    frames: int,
    i: int,
) -> bool {
    exists|c: int, j: int|
        0 <= c < offsets.len() && 0 <= j < 2 * frames && j < queues[c]@.len() && i == slot(
            width,
            offsets[c] as int,
            j,
        )
}

/// Like `slot_written`, but only for channels before `climit`, and for
/// channel `climit` only sample indices before `jlimit`.
spec fn slot_written_upto(
    offsets: Seq<usize>,
    queues: Seq<SampleQueue>,
    width: int,
    frames: int,
    climit: int,
    jlimit: int,
    i: int,
) -> bool {
    exists|c: int, j: int|
        0 <= c < offsets.len() && 0 <= j < 2 * frames && j < queues[c]@.len() && (c < climit || (c
            == climit && j < jlimit)) && i == slot(width, offsets[c] as int, j)
}

/// Wide-side multiplexer: writes, for every frame and channel, the two
/// samples at that frame's window position of the channel's queue into the
/// channel's slots of the wide output buffer. Window positions past the
/// queue's current length are left untouched (the caller's stale or silent
/// data stands in for the underrun portion), as is every buffer index that
/// belongs to no channel.
pub fn mux_wide(
    output: &mut Vec<u32>,
    queues: &Vec<SampleQueue>,
    offsets: &Vec<usize>,
    width: usize,
    frames: usize,
)
    requires
        queues@.len() == offsets@.len(),
        forall|c: int| 0 <= c < offsets@.len() ==> #[trigger] offsets@[c] + 2 <= width,
        forall|c1: int, c2: int|
            0 <= c1 < c2 < offsets@.len() ==> offsets@[c1] + 2 <= offsets@[c2] || offsets@[c2] + 2
                <= offsets@[c1],
        old(output)@.len() == frames * width,
    ensures
        final(output)@.len() == old(output)@.len(),
        forall|c: int, j: int|
            0 <= c < queues@.len() && 0 <= j < 2 * frames && j < queues@[c]@.len()
                ==> final(output)@[slot(width as int, offsets@[c] as int, j)] == queues@[c]@[j],
        forall|i: int|
            0 <= i < old(output)@.len() && !slot_written(
                offsets@,
                queues@,
                width as int,
                frames as int,
                i,
            ) ==> final(output)@[i] == old(output)@[i],
{
    let ghost out0 = old(output)@;
    proof {
        vstd::std_specs::vec::axiom_spec_len(output);
    }
    let mut c: usize = 0;
    while c < queues.len()
        invariant
            c <= queues@.len(),
            queues@.len() == offsets@.len(),
            output@.len() == out0.len(),
            out0.len() == frames * width,
            frames * width <= usize::MAX,
            forall|k: int| 0 <= k < offsets@.len() ==> #[trigger] offsets@[k] + 2 <= width,
            forall|c1: int, c2: int|
                0 <= c1 < c2 < offsets@.len() ==> offsets@[c1] + 2 <= offsets@[c2] || offsets@[c2]
                    + 2 <= offsets@[c1],
            forall|k: int, j: int|
                0 <= k < c && 0 <= j < 2 * frames && j < queues@[k]@.len()
                    ==> output@[slot(width as int, offsets@[k] as int, j)] == queues@[k]@[j],
            forall|i: int|
                0 <= i < out0.len() && !slot_written_upto(
                    offsets@,
                    queues@,
                    width as int,
                    frames as int,
                    c as int,
                    0,
                    i,
                ) ==> output@[i] == out0[i],
        decreases queues@.len() - c,
    {
        let off = offsets[c];
        let qlen = queues[c].len();
        proof {
            assert(2 * frames <= frames * width) by (nonlinear_arith)
                requires
                    2 <= width,
                    0 <= frames,
            ;
        }
        let needed = 2 * frames;
        let lim = if qlen < needed {
            qlen
        } else {
            needed
        };
        let mut j: usize = 0;
        while j < lim
            invariant
                j <= lim,
                c < queues@.len(),
                queues@.len() == offsets@.len(),
                output@.len() == out0.len(),
                out0.len() == frames * width,
                off == offsets@[c as int],
                qlen == queues@[c as int]@.len(),
                needed == 2 * frames,
                frames * width <= usize::MAX,
                lim == if qlen < needed { qlen as int } else { needed as int },
                forall|k: int| 0 <= k < offsets@.len() ==> #[trigger] offsets@[k] + 2 <= width,
                forall|c1: int, c2: int|
                    0 <= c1 < c2 < offsets@.len() ==> offsets@[c1] + 2 <= offsets@[c2] ||
                        offsets@[c2] + 2 <= offsets@[c1],
                forall|k: int, jj: int|
                    0 <= k < c && 0 <= jj < 2 * frames && jj < queues@[k]@.len()
                        ==> output@[slot(width as int, offsets@[k] as int, jj)] == queues@[k]@[jj],
                forall|jj: int|
                    0 <= jj < j ==> output@[slot(width as int, off as int, jj)]
                        == queues@[c as int]@[jj],
                forall|i: int|
                    0 <= i < out0.len() && !slot_written_upto(
                        offsets@,
                        queues@,
                        width as int,
                        frames as int,
                        c as int,
                        j as int,
                        i,
                    ) ==> output@[i] == out0[i],
            decreases lim - j,
        {
            proof {
                lemma_fundamental_div_mod(j as int, 2);
                assert(j / 2 < frames);
                assert((j / 2) * width + width <= frames * width) by (nonlinear_arith)
                    requires
                        0 <= j / 2,
                        j / 2 < frames,
                        0 <= width,
                ;
            }
            let idx = (j / 2) * width + off + (j % 2);
            let v = queues[c].peek(j);
            let ghost prev = output@;
            output[idx] = v;
            proof {
                assert(idx == slot(width as int, off as int, j as int));
                lemma_slot_in_range(width as int, off as int, frames as int, j as int);
                assert forall|k: int, jj: int|
                    0 <= k < c && 0 <= jj < 2 * frames && jj < queues@[k]@.len() implies output@[
                    slot(width as int, offsets@[k] as int, jj)] == queues@[k]@[jj] by {
                    lemma_slot_in_range(width as int, offsets@[k] as int, frames as int, jj);
                    lemma_slot_distinct(
                        width as int,
                        offsets@[k] as int,
                        jj,
                        off as int,
                        j as int,
                    );
                }
                assert forall|jj: int| 0 <= jj < j + 1 implies output@[
                    slot(width as int, off as int, jj)] == queues@[c as int]@[jj] by {
                    lemma_slot_in_range(width as int, off as int, frames as int, jj);
                    if jj < j {
                        lemma_slot_distinct(width as int, off as int, jj, off as int, j as int);
                    }
                }
                assert forall|i: int|
                    0 <= i < out0.len() && !slot_written_upto(
                        offsets@,
                        queues@,
                        width as int,
                        frames as int,
                        c as int,
                        j as int + 1,
                        i,
                    ) implies output@[i] == out0[i] by {
                    assert(slot_written_upto(
                        offsets@,
                        queues@,
                        width as int,
                        frames as int,
                        c as int,
                        j as int + 1,
                        idx as int,
                    ));
                    if i != idx {
                        assert(!slot_written_upto(
                            offsets@,
                            queues@,
                            width as int,
                            frames as int,
                            c as int,
                            j as int,
                            i,
                        ));
                    }
                }
            }
            j += 1;
        }
        proof {
            assert forall|jj: int|
                0 <= jj < 2 * frames && jj < queues@[c as int]@.len() implies output@[
                slot(width as int, off as int, jj)] == queues@[c as int]@[jj] by {
                assert(jj < lim);
            }
            assert forall|i: int|
                0 <= i < out0.len() && !slot_written_upto(
                    offsets@,
                    queues@,
                    width as int,
                    frames as int,
                    c as int + 1,
                    0,
                    i,
                ) implies output@[i] == out0[i] by {
                assert(!slot_written_upto(
                    offsets@,
                    queues@,
                    width as int,
                    frames as int,
                    c as int,
                    lim as int,
                    i,
                ));
            }
        }
        c += 1;
    }
    proof {
        assert forall|i: int|
            0 <= i < out0.len() && !slot_written(
                offsets@,
                queues@,
                width as int,
                frames as int,
                i,
            ) implies output@[i] == out0[i] by {
            assert(!slot_written_upto(
                offsets@,
                queues@,
                width as int,
                frames as int,
                queues@.len() as int,
                0,
                i,
            ));
        }
    }
}

/// Round-trip law: demultiplexing `frames` wide frames into an empty
/// channel queue and then multiplexing that channel back reproduces the
/// original two-sample slices in order, provided the queue's capacity is
/// not exceeded. After the demultiplex the queue holds exactly the
/// channel's slices, and the sample the multiplexer reads back at window
/// position `j` equals the wide buffer's original sample at that channel's
/// slot for `j`.
pub proof fn lemma_demux_mux_round_trip(
    input: Seq<u32>,
    frames: nat,
    width: nat,
    off: nat,
    cap: nat,
)
    requires
        off + 2 <= width,
        input.len() == frames * width,
        2 * frames <= cap,
    ensures
        push_all_model(Seq::<u32>::empty(), cap, channel_slices(input, frames, width, off))
            == channel_slices(input, frames, width, off),
        forall|j: int|
            0 <= j < 2 * frames ==> channel_slices(input, frames, width, off)[j] == input[slot(
                width as int,
                off as int,
                j,
            )],
{
    let slices = channel_slices(input, frames, width, off);
    lemma_push_all_within_capacity(Seq::<u32>::empty(), cap, slices);
    assert(Seq::<u32>::empty() + slices =~= slices);
}

/// Endpoint-side multiplexer: fills an endpoint's two-channel interleaved
/// render buffer from that endpoint's queue. On underrun only the trailing
/// slots are written; the leading slots keep the host-supplied contents.
pub fn mux_endpoint(q: &SampleQueue, output: &mut Vec<u32>, frames: usize)
    requires
        old(output)@.len() == frames * 2,
    ensures
        final(output)@ == window_model(q@, old(output)@),
{
    q.read_window(output);
}

} // verus!
