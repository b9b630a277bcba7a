//! Batch slicing and stream cancellation.
//!
//! A query result batch that exceeds the caller's `max_batch_length` is cut
//! into consecutive slices that are delivered one by one; the host callback
//! answers each delivery with a continue/cancel flag, and the first cancel
//! stops the stream.

use vstd::prelude::*;

verus! {

/// The slice layout for a batch of `total` rows under the bound `max`,
/// as `(start, length)` pairs.  With no bound (`max == 0`) or a batch
/// within the bound, the batch travels whole.  Otherwise the batch is cut
/// into `total / max` slices of exactly `max` rows, followed by one
/// trailing slice with the remaining `total % max` rows if there are any.
pub open spec fn spec_slice_plan(total: int, max: int) -> Seq<(int, int)> {
    if max <= 0 || total <= max {
        seq![(0int, total)]
    } else {
        let full = total / max;
        let rem = total % max;
        Seq::new((full + if rem == 0 { 0int } else { 1int }) as nat, |i: int|
            if i < full { (i * max, max) } else { (full * max, rem) })
    }
}

/// Computes the slice layout for a batch of `total` rows under the host's
/// `max_batch_length` bound.
pub fn slice_plan(total: usize, max_batch_length: u32) -> (plan: Vec<(usize, usize)>)
    ensures
        plan@.len() == spec_slice_plan(total as int, max_batch_length as int).len(),
        forall|i: int| 0 <= i < plan@.len() ==> (plan@[i].0 as int, plan@[i].1 as int)
            == spec_slice_plan(total as int, max_batch_length as int)[i],
{
    let mut plan: Vec<(usize, usize)> = Vec::new();
    if max_batch_length == 0 || total <= max_batch_length as usize {
        plan.push((0, total));
        plan
    } else {
        let b: usize = max_batch_length as usize;
        let full: usize = total / b;
        let rem: usize = total % b;
        proof {
            vstd::arithmetic::div_mod::lemma_fundamental_div_mod(total as int, b as int);
        }
        let mut i: usize = 0;
        while i < full
            invariant
                0 < b <= total,
                full == total / b,
                i <= full,
                total == b * full + total % b,
                plan@.len() == i,
                forall|j: int| 0 <= j < i ==> (plan@[j].0 as int, plan@[j].1 as int)
                    == (j * b, b as int),
            decreases full - i,
        {
            assert((i + 1) * b <= full * b && i * b <= full * b) by (nonlinear_arith)
                requires
                    0 <= i < full,
                    0 < b,
            ;
            assert(full * b <= total) by (nonlinear_arith)
                requires
                    total == b * full + total % b,
                    0 < b <= total,
            ;
            let start: usize = i * b;
            plan.push((start, b));
            i = i + 1;
        }
        if rem != 0 {
            assert(full * b <= total) by (nonlinear_arith)
                requires
                    total == b * full + rem,
                    0 <= rem,
            ;
            plan.push((full * b, rem));
        }
        plan
    }
}

/// Slicing is a partition of the batch: the first slice starts at row
/// zero, each later slice begins where the one before it ended, the last
/// slice ends at the last row, and every slice but possibly the trailing
/// one holds exactly `max` rows.
pub proof fn lemma_slice_plan_partition(total: int, max: int)
    requires
        0 <= total,
    ensures
        spec_slice_plan(total, max).len() >= 1,
        spec_slice_plan(total, max)[0].0 == 0,
        forall|i: int| 0 <= i < spec_slice_plan(total, max).len() - 1 ==> #[trigger] spec_slice_plan(
            total,
            max,
        )[i + 1].0 == spec_slice_plan(total, max)[i].0 + spec_slice_plan(total, max)[i].1,
        ({
            let p = spec_slice_plan(total, max);
            p[p.len() - 1].0 + p[p.len() - 1].1 == total
        }),
        max > 0 ==> forall|i: int| 0 <= i < spec_slice_plan(total, max).len() - 1
            ==> #[trigger] spec_slice_plan(total, max)[i].1 == max,
        forall|i: int| 0 <= i < spec_slice_plan(total, max).len() ==> 0 <= (
        #[trigger] spec_slice_plan(total, max)[i]).0 && spec_slice_plan(total, max)[i].0
            + spec_slice_plan(total, max)[i].1 <= total,
{
    if max <= 0 || total <= max {
    } else {
        let full = total / max;
        let rem = total % max;
        vstd::arithmetic::div_mod::lemma_fundamental_div_mod(total, max);
        assert(full >= 1) by (nonlinear_arith)
            requires
                total > max > 0,
                total == max * full + rem,
                0 <= rem < max,
        ;
        let p = spec_slice_plan(total, max);
        assert forall|i: int| 0 <= i < p.len() - 1 implies #[trigger] p[i + 1].0 == p[i].0
            + p[i].1 by {
            if i + 1 < full {
                assert((i + 1) * max == i * max + max) by (nonlinear_arith);
            } else {
                assert((full - 1) * max + max == full * max) by (nonlinear_arith);
            }
        }
        if rem == 0 {
            assert(p[p.len() - 1] == ((full - 1) * max, max));
            assert((full - 1) * max + max == total) by (nonlinear_arith)
                requires
                    total == max * full + rem,
                    rem == 0,
            ;
        } else {
            assert(full * max + rem == total) by (nonlinear_arith)
                requires
                    total == max * full + rem,
            ;
        }
        assert forall|i: int| 0 <= i < p.len() implies 0 <= (#[trigger] p[i]).0 && p[i].0 + p[i].1
            <= total by {
            if i < full {
                assert(0 <= i * max && i * max + max <= full * max && full * max <= total)
                    by (nonlinear_arith)
                    requires
                        0 <= i < full,
                        0 < max,
                        total == max * full + rem,
                        0 <= rem,
                ;
            } else {
                assert(0 <= full * max && full * max + rem <= total) by (nonlinear_arith)
                    requires
                        total == max * full + rem,
                        0 <= rem,
                        0 < max,
                        0 < full,
                ;
            }
        }
    }
}

/// Cuts a batch according to the slice layout for its row count and
/// encodes each slice as its own Arrow IPC file, ready to be streamed to
/// the host one callback at a time.  It succeeds exactly when every
/// planned slice encodes, and then the i-th buffer is the encoding of
/// the batch's rows at the i-th planned offset; the first slice that
/// fails to encode surfaces as its Arrow error text.
pub fn encode_batch_slices(batch: &crate::codec::IpcBatch, max_batch_length: u32) -> (r: Result<
    Vec<Vec<u8>>,
    String,
>)
    ensures
        ({
            let plan = spec_slice_plan(
                crate::codec::batch_rows(*batch) as int,
                max_batch_length as int,
            );
            &&& (r is Ok <==> forall|i: int|
                0 <= i < plan.len() ==> crate::codec::batch_encodes(
                    crate::codec::slice_of(*batch, (#[trigger] plan[i]).0, plan[i].1),
                ))
            &&& r is Ok ==> r.unwrap()@.len() == plan.len() && (forall|i: int|
                0 <= i < plan.len() ==> (#[trigger] r.unwrap()@[i])@
                    == crate::codec::batch_file_ipc(
                    crate::codec::slice_of(*batch, plan[i].0, plan[i].1),
                ))
            &&& r is Err ==> exists|e: arrow_schema::ArrowError| r->Err_0@
                == crate::codec::arrow_error_text(e)
        }),
{
    let total = crate::codec::batch_num_rows(batch);
    let plan = slice_plan(total, max_batch_length);
    let ghost spec_plan = spec_slice_plan(total as int, max_batch_length as int);
    proof {
        lemma_slice_plan_partition(total as int, max_batch_length as int);
    }
    let mut out: Vec<Vec<u8>> = Vec::new();
    let mut i: usize = 0;
    let n = plan.len();
    while i < n
        invariant
            n == plan@.len(),
            plan@.len() == spec_plan.len(),
            spec_plan == spec_slice_plan(total as int, max_batch_length as int),
            total == crate::codec::batch_rows(*batch),
            forall|j: int| 0 <= j < plan@.len() ==> (plan@[j].0 as int, plan@[j].1 as int)
                == spec_plan[j],
            forall|j: int| 0 <= j < spec_plan.len() ==> 0 <= (#[trigger] spec_plan[j]).0
                && spec_plan[j].0 + spec_plan[j].1 <= total,
            i <= n,
            out@.len() == i,
            forall|j: int|
                0 <= j < i ==> crate::codec::batch_encodes(
                    crate::codec::slice_of(*batch, (#[trigger] spec_plan[j]).0, spec_plan[j].1),
                ),
            forall|j: int|
                0 <= j < i ==> (#[trigger] out@[j])@ == crate::codec::batch_file_ipc(
                    crate::codec::slice_of(*batch, spec_plan[j].0, spec_plan[j].1),
                ),
        decreases n - i,
    {
        let (start, len) = plan[i];
        proof {
            assert((plan@[i as int].0 as int, plan@[i as int].1 as int) == spec_plan[i as int]);
            assert(spec_plan[i as int].0 + spec_plan[i as int].1 <= total);
        }
        let sliced = crate::codec::batch_slice(batch, start, len);
        proof {
            assert(sliced == crate::codec::slice_of(
                *batch,
                spec_plan[i as int].0,
                spec_plan[i as int].1,
            ));
        }
        match crate::codec::batch_to_bytes(&sliced) {
            Ok(bytes) => {
                out.push(bytes);
            }
            Err(e) => {
                proof {
                    assert(!crate::codec::batch_encodes(
                        crate::codec::slice_of(*batch, spec_plan[i as int].0, spec_plan[i as int].1),
                    ));
                }
                return Err(e);
            }
        }
        i = i + 1;
    }
    Ok(out)
}

/// How many deliveries a stream of `pending` slices makes when the host
/// answers the successive deliveries with `responses`: each delivered
/// slice consumes one response, and the first `false` response stops the
/// stream.  Responses beyond the list are taken as `true`.
pub open spec fn spec_deliveries(responses: Seq<bool>, pending: nat) -> nat
    decreases pending,
{
    if pending == 0 {
        0
    } else if responses.len() == 0 || responses[0] {
        1 + spec_deliveries(responses.drop_first(), (pending - 1) as nat)
    } else {
        1
    }
}

/// Stream cancellation: if the host answers the `k`-th delivery (counted
/// from zero) with `false`, no later delivery happens — the stream makes
/// at most `k + 1` deliveries, however many slices were pending.
pub proof fn lemma_stream_cancellation(responses: Seq<bool>, pending: nat, k: int)
    requires
        0 <= k < responses.len(),
        !responses[k],
    ensures
        spec_deliveries(responses, pending) <= k + 1,
    decreases k,
{
    if pending == 0 {
    } else if k == 0 {
    } else if responses[0] {
        lemma_stream_cancellation(responses.drop_first(), (pending - 1) as nat, k - 1);
    }
}

/// A stream never delivers more than the slices it has.
pub proof fn lemma_stream_bounded(responses: Seq<bool>, pending: nat)
    ensures
        spec_deliveries(responses, pending) <= pending,
    decreases pending,
{
    if pending > 0 && (responses.len() == 0 || responses[0]) {
        lemma_stream_bounded(responses.drop_first(), (pending - 1) as nat);
    }
}

/// The delivery state of one streaming query: how many slices exist, how
/// many have been handed to the host, and whether the host cancelled.
pub struct BatchStream {
    total: usize,
    emitted: usize,
    cancelled: bool,
}

impl BatchStream {
    /// Slices this stream is to deliver in all.
    pub closed spec fn spec_total(self) -> int {
        self.total as int
    }

    /// Slices delivered so far.
    pub closed spec fn spec_emitted(self) -> int {
        self.emitted as int
    }

    /// Whether the host cancelled the stream.
    pub closed spec fn spec_cancelled(self) -> bool {
        self.cancelled
    }

    /// A stream at its start never exceeds its slice count.
    pub open spec fn wf(self) -> bool {
        0 <= self.spec_emitted() <= self.spec_total()
    }

    /// A fresh stream over `total` slices.
    pub fn new(total: usize) -> (s: BatchStream)
        ensures
            s.wf(),
            s.spec_total() == total as int,
            s.spec_emitted() == 0,
            !s.spec_cancelled(),
    {
        BatchStream { total, emitted: 0, cancelled: false }
    }

    /// Whether another slice must be delivered: only while nothing was
    /// cancelled and slices remain.
    pub fn should_emit(&self) -> (r: bool)
        ensures
            r == (!self.spec_cancelled() && self.spec_emitted() < self.spec_total()),
    {
        !self.cancelled && self.emitted < self.total
    }

    /// Records one delivery and the host's continue flag.  A cancelled or
    /// exhausted stream delivers nothing more, so this demands an emitting
    /// stream; the host's `false` freezes the stream for good.
    pub fn note_delivery(&mut self, proceed: bool)
        requires
            old(self).wf(),
            !old(self).spec_cancelled(),
            old(self).spec_emitted() < old(self).spec_total(),
        ensures
            final(self).wf(),
            final(self).spec_total() == old(self).spec_total(),
            final(self).spec_emitted() == old(self).spec_emitted() + 1,
            final(self).spec_cancelled() == !proceed,
    {
        self.emitted = self.emitted + 1;
        self.cancelled = !proceed;
    }

    /// Slices delivered so far.
    pub fn emitted(&self) -> (n: usize)
        ensures
            n as int == self.spec_emitted(),
    {
        self.emitted
    }

    /// Whether the host cancelled the stream.
    pub fn cancelled(&self) -> (c: bool)
        ensures
            c == self.spec_cancelled(),
    {
        self.cancelled
    }
}

} // verus!
