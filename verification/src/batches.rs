//! The record-batch store: decoded batch sets held for the host.
//!
//! The host submits record batches (with their schema) as Arrow IPC file
//! bytes; the decoded batches are parked here under opaque monotone ids
//! until a write command consumes them.  Each stored set keeps the decode
//! outcome of every batch in file order, so a per-batch decode error is
//! forwarded verbatim when the set is used.

use vstd::prelude::*;
use crate::handles::RecordBatchHandle;
use crate::codec::{IpcBatch, batches_file_ipc, batch_set_encodes, batch_schema_key, batch_schema_eq, ipc_write_batch_set, batch_clone, arrow_error_message, arrow_error_text};
use crate::connections::{ConnectionActor, ConnectionsView, spec_disconnect};

verus! {

/// One stored batch set: every batch of the submitted file in order, each
/// with its own decode outcome.
pub type RecBatch = Vec<Result<IpcBatch, String>>;

/// The batches of a set in which every batch decoded.
pub open spec fn spec_ok_batches(s: Seq<Result<IpcBatch, String>>) -> Seq<IpcBatch> {
    Seq::new(s.len(), |i: int| s[i].unwrap())
}

/// Whether every batch of a set has the first one's schema, which the
/// IPC file format demands of the batches of one file.
pub open spec fn spec_uniform_schema(bs: Seq<IpcBatch>) -> bool {
    forall|i: int|
        0 <= i < bs.len() ==> batch_schema_key(#[trigger] bs[i]) == batch_schema_key(bs[0])
}

/// The record-batch store.  It reuses the engine's registry discipline:
/// ids are issued monotonically starting at 1 and never reused.
pub struct BatchHandler {
    store: ConnectionActor<RecBatch>,
}

impl BatchHandler {
    /// The abstract store state: the next id and the live sets by id.
    pub closed spec fn view(&self) -> ConnectionsView<RecBatch> {
        self.store@
    }

    /// A well-formed store.
    pub closed spec fn wf(&self) -> bool {
        self.store.wf() && self.store@.wf()
    }

    /// Set up the batch handler, ready to hold data.
    pub fn new() -> (r: BatchHandler)
        ensures
            r.wf(),
            r@.next == 1,
            r@.map =~= Map::<i64, RecBatch>::empty(),
    {
        BatchHandler { store: ConnectionActor::new() }
    }

    /// Parks a batch set and issues its handle: the store's next id,
    /// never one used before.  Every other set stays exactly as it was.
    pub fn add_batch(&mut self, batch: RecBatch) -> (h: RecordBatchHandle)
        requires
            old(self).wf(),
            old(self)@.next < i64::MAX,
        ensures
            final(self).wf(),
            h.0 == old(self)@.next,
            final(self)@.next == old(self)@.next + 1,
            final(self)@.map.dom() =~= old(self)@.map.dom().insert(h.0),
            final(self)@.map[h.0] == batch,
            forall|h2: i64|
                h2 != h.0 && old(self)@.map.dom().contains(h2) ==> final(self)@.map[h2]
                    == old(self)@.map[h2],
    {
        RecordBatchHandle(self.store.connect(batch))
    }

    /// Frees a batch set if its handle is live; a stale handle is a
    /// silent no-op.
    pub fn free_if_exists(&mut self, handle: RecordBatchHandle)
        requires
            old(self).wf(),
        ensures
            final(self).wf(),
            final(self)@ == spec_disconnect(old(self)@, handle.0),
    {
        self.store.disconnect(handle.0);
    }

    /// Removes a batch set and hands it to the write command that
    /// consumes it; a stale handle yields nothing.
    pub fn take_batch(&mut self, handle: RecordBatchHandle) -> (r: Option<RecBatch>)
        requires
            old(self).wf(),
        ensures
            final(self).wf(),
            r is Some <==> old(self)@.map.dom().contains(handle.0),
            r is Some ==> r.unwrap() == old(self)@.map[handle.0],
            final(self)@ == spec_disconnect(old(self)@, handle.0),
    {
        self.store.take(handle.0)
    }

    /// The batch set a handle names, if it is live.
    pub fn get_batch(&self, handle: RecordBatchHandle) -> (r: Option<&RecBatch>)
        requires
            self.wf(),
        ensures
            r is Some <==> self@.map.dom().contains(handle.0),
            r is Some ==> *r.unwrap() == self@.map[handle.0],
    {
        self.store.get(handle.0)
    }

    /// Re-encodes a stored batch set as one Arrow IPC file under the
    /// first batch's schema.  It succeeds exactly on a live handle whose
    /// set is non-empty, fully decoded, of one schema throughout, and
    /// accepted by the writer; a stale handle, an empty set and a
    /// mixed-schema set are each reported with their own text, the first
    /// stored decode failure is forwarded verbatim, and a writer failure
    /// surfaces as its Arrow error text.
    pub fn batch_as_bytes(&self, handle: RecordBatchHandle) -> (r: Result<Vec<u8>, String>)
        requires
            self.wf(),
        ensures
            ({
                let live = self@.map.dom().contains(handle.0);
                let stored = self@.map[handle.0]@;
                &&& (r is Ok <==> (live && stored.len() >= 1 && (forall|i: int|
                    0 <= i < stored.len() ==> (#[trigger] stored[i]) is Ok)
                    && spec_uniform_schema(spec_ok_batches(stored)) && batch_set_encodes(
                    spec_ok_batches(stored),
                )))
                &&& r is Ok ==> r.unwrap()@ == batches_file_ipc(spec_ok_batches(stored))
                &&& !live ==> r is Err && r->Err_0@ == "Record batch not found"@
                &&& live && stored.len() == 0 ==> r is Err && r->Err_0@
                    == "Record batch set is empty"@
                &&& live && (exists|j: int| 0 <= j < stored.len() && (#[trigger] stored[j]) is Err)
                    ==> (r is Err && exists|j: int|
                    0 <= j < stored.len() && (#[trigger] stored[j]) is Err && r->Err_0
                        == stored[j]->Err_0 && (forall|k: int| 0 <= k < j ==> stored[k] is Ok))
                &&& live && stored.len() >= 1 && (forall|i: int|
                    0 <= i < stored.len() ==> (#[trigger] stored[i]) is Ok)
                    && !spec_uniform_schema(spec_ok_batches(stored)) ==> (r is Err && r->Err_0@
                    == "Record batch set holds mixed schemas"@)
                &&& live && stored.len() >= 1 && (forall|i: int|
                    0 <= i < stored.len() ==> (#[trigger] stored[i]) is Ok)
                    && spec_uniform_schema(spec_ok_batches(stored)) && !batch_set_encodes(
                    spec_ok_batches(stored),
                ) ==> (r is Err && exists|e: arrow_schema::ArrowError| r->Err_0@
                    == arrow_error_text(e))
            }),
    {
        let stored = match self.store.get(handle.0) {
            Some(s) => s,
            None => {
                return Err(String::from_str("Record batch not found"));
            },
        };
        let n = stored.len();
        if n == 0 {
            return Err(String::from_str("Record batch set is empty"));
        }
        let mut oks: Vec<IpcBatch> = Vec::new();
        let mut i: usize = 0;
        while i < n
            invariant
                self.wf(),
                self@.map.dom().contains(handle.0),
                *stored == self@.map[handle.0],
                n == stored@.len(),
                i <= n,
                oks@.len() == i,
                forall|j: int| 0 <= j < i ==> (#[trigger] stored@[j]) is Ok,
                forall|j: int| 0 <= j < i ==> oks@[j] == stored@[j].unwrap(),
            decreases n - i,
        {
            match &stored[i] {
                Ok(b) => {
                    oks.push(batch_clone(b));
                },
                Err(e) => {
                    let message = e.clone();
                    proof {
                        assert(stored@[i as int] is Err && message == stored@[i as int]->Err_0);
                    }
                    return Err(message);
                },
            }
            i = i + 1;
        }
        proof {
            assert(oks@ =~= spec_ok_batches(stored@));
        }
        let mut i: usize = 0;
        while i < n
            invariant
                self.wf(),
                self@.map.dom().contains(handle.0),
                *stored == self@.map[handle.0],
                n == stored@.len(),
                n >= 1,
                forall|j: int| 0 <= j < n ==> (#[trigger] stored@[j]) is Ok,
                oks@ == spec_ok_batches(stored@),
                oks@.len() == n,
                i <= n,
                forall|j: int|
                    0 <= j < i ==> batch_schema_key(#[trigger] oks@[j]) == batch_schema_key(
                        oks@[0],
                    ),
            decreases n - i,
        {
            if !batch_schema_eq(&oks[i], &oks[0]) {
                proof {
                    assert(!spec_uniform_schema(oks@));
                }
                return Err(String::from_str("Record batch set holds mixed schemas"));
            }
            i = i + 1;
        }
        proof {
            assert(spec_uniform_schema(oks@));
        }
        match ipc_write_batch_set(&oks) {
            Ok(bytes) => Ok(bytes),
            Err(e) => Err(arrow_error_message(&e)),
        }
    }
}

} // verus!
