//! The blob store: byte buffers held for the host.
//!
//! Blobs delivered to the host outside a callback's lifetime (schemas,
//! encoded batches) are parked here under opaque monotone ids; the host
//! reads them through accessor calls and frees them explicitly.  The
//! buffers are reference-counted so a blob can cross threads safely and is
//! deallocated only when the store entry and every outstanding reference
//! are gone.

use vstd::prelude::*;
use std::sync::Arc;
use crate::handles::BlobHandle;
use crate::connections::{ConnectionActor, ConnectionsView, spec_disconnect};

verus! {

/// Relies on Arc's Deref, which yields the shared value.
#[verifier::external_body]
fn arc_bytes<'a>(a: &'a Arc<Vec<u8>>) -> (r: &'a Vec<u8>)
    ensures
        r@ == a@,
{
    &**a
}

/// Relies on Arc::clone, which yields a new reference to the same shared
/// value.
#[verifier::external_body]
fn arc_clone(a: &Arc<Vec<u8>>) -> (r: Arc<Vec<u8>>)
    ensures
        r@ == a@,
{
    Arc::clone(a)
}

/// The blob store.  It reuses the engine's registry discipline: ids are
/// issued monotonically starting at 1 and never reused.
pub struct BlobHandler {
    store: ConnectionActor<Arc<Vec<u8>>>,
}

impl BlobHandler {
    /// The abstract store state: the next id and the live blobs by id.
    pub closed spec fn view(&self) -> ConnectionsView<Arc<Vec<u8>>> {
        self.store@
    }

    /// A well-formed store.
    pub closed spec fn wf(&self) -> bool {
        self.store.wf() && self.store@.wf()
    }

    /// Set up the blob store, ready to hold data.
    pub fn new() -> (r: BlobHandler)
        ensures
            r.wf(),
            r@.next == 1,
            r@.map =~= Map::<i64, Arc<Vec<u8>>>::empty(),
    {
        BlobHandler { store: ConnectionActor::new() }
    }

    /// Parks a blob and issues its handle: the store's next id, never one
    /// used before.  Every other blob stays exactly as it was.
    pub fn add_blob(&mut self, blob: Vec<u8>) -> (h: BlobHandle)
        requires
            old(self).wf(),
            old(self)@.next < i64::MAX,
        ensures
            final(self).wf(),
            h.0 == old(self)@.next,
            final(self)@.next == old(self)@.next + 1,
            final(self)@.map.dom() =~= old(self)@.map.dom().insert(h.0),
            final(self)@.map[h.0]@ == blob@,
            forall|h2: i64|
                h2 != h.0 && old(self)@.map.dom().contains(h2) ==> final(self)@.map[h2]
                    == old(self)@.map[h2],
    {
        let ghost b = blob@;
        let arc = Arc::new(blob);
        proof {
            assert(arc@ == b);
        }
        let id = self.store.connect(arc);
        BlobHandle(id)
    }

    /// Frees a blob if its handle is live; a stale handle is a silent
    /// no-op.
    pub fn free_if_exists(&mut self, handle: BlobHandle)
        requires
            old(self).wf(),
        ensures
            final(self).wf(),
            final(self)@ == spec_disconnect(old(self)@, handle.0),
    {
        self.store.disconnect(handle.0);
    }

    /// The byte length of a live blob, or nothing for a stale handle.
    pub fn blob_len(&self, handle: BlobHandle) -> (r: Option<isize>)
        requires
            self.wf(),
        ensures
            r is Some <==> self@.map.dom().contains(handle.0),
            r is Some ==> r.unwrap() == self@.map[handle.0]@.len() as isize,
    {
        match self.store.get(handle.0) {
            Some(arc) => Some(#[verifier::truncate] (arc_bytes(arc).len() as isize)),
            None => None,
        }
    }

    /// A new shared reference to a live blob, or nothing for a stale
    /// handle.
    pub fn get_blob_arc(&self, handle: BlobHandle) -> (r: Option<Arc<Vec<u8>>>)
        requires
            self.wf(),
        ensures
            r is Some <==> self@.map.dom().contains(handle.0),
            r is Some ==> r.unwrap()@ == self@.map[handle.0]@,
    {
        match self.store.get(handle.0) {
            Some(arc) => Some(arc_clone(arc)),
            None => None,
        }
    }
}

} // verus!
