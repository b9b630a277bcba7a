//! The string-list store: lists of strings held for the host.
//!
//! Passing lists of strings across the C boundary is error-prone, so the
//! engine parks each list here under an opaque monotone id; the host reads
//! the list through accessor calls and frees it explicitly.  The raw
//! C-string marshalling lives in the host layer.

use vstd::prelude::*;
use crate::connections::{ConnectionActor, ConnectionsView, spec_disconnect};

verus! {

/// The string-list store.  It reuses the engine's registry discipline —
/// ids are issued monotonically and never reused — starting at id 0.
pub struct StringListHandler {
    store: ConnectionActor<Vec<String>>,
}

impl StringListHandler {
    /// The abstract store state: the next id and the live lists by id.
    pub closed spec fn view(&self) -> ConnectionsView<Vec<String>> {
        self.store@
    }

    /// A well-formed store.
    pub closed spec fn wf(&self) -> bool {
        self.store.wf() && self.store@.wf()
    }

    /// Set up the string-list store, ready to hold data.  The first list
    /// filed gets id 0.
    pub fn new() -> (r: StringListHandler)
        ensures
            r.wf(),
            r@.next == 0,
            r@.map =~= Map::<i64, Vec<String>>::empty(),
    {
        StringListHandler { store: ConnectionActor::new_from(0) }
    }

    /// Parks a list of strings and issues its id: the store's next id,
    /// never one used before.  Every other list stays exactly as it was.
    /// Filing a list always succeeds.
    pub fn add_string_list(&mut self, strings: Vec<String>) -> (r: Result<i64, String>)
        requires
            old(self).wf(),
            old(self)@.next < i64::MAX,
        ensures
            final(self).wf(),
            r is Ok,
            r.unwrap() == old(self)@.next,
            final(self)@.next == old(self)@.next + 1,
            final(self)@.map.dom() =~= old(self)@.map.dom().insert(r.unwrap()),
            final(self)@.map[r.unwrap()] == strings,
            forall|h2: i64|
                h2 != r.unwrap() && old(self)@.map.dom().contains(h2) ==> final(self)@.map[h2]
                    == old(self)@.map[h2],
    {
        Ok(self.store.connect(strings))
    }

    /// Frees a list if its id is live; a stale id is a silent no-op.
    pub fn free_string_list(&mut self, id: i64)
        requires
            old(self).wf(),
        ensures
            final(self).wf(),
            final(self)@ == spec_disconnect(old(self)@, id),
    {
        self.store.disconnect(id);
    }

    /// The list an id names, if it is live, for the host layer to marshal.
    pub fn get_string_list(&self, id: i64) -> (r: Option<&Vec<String>>)
        requires
            self.wf(),
        ensures
            r is Some <==> self@.map.dom().contains(id),
            r is Some ==> *r.unwrap() == self@.map[id],
    {
        self.store.get(id)
    }
}

/// Parks a list of strings in the given store; the id that comes back is
/// what the host later reads and frees the list by.
pub fn add_string_list(handler: &mut StringListHandler, strings: Vec<String>) -> (r: Result<
    i64,
    String,
>)
    requires
        old(handler).wf(),
        old(handler)@.next < i64::MAX,
    ensures
        final(handler).wf(),
        r is Ok,
        r.unwrap() == old(handler)@.next,
        final(handler)@.next == old(handler)@.next + 1,
        final(handler)@.map.dom() =~= old(handler)@.map.dom().insert(r.unwrap()),
        final(handler)@.map[r.unwrap()] == strings,
        forall|h2: i64|
            h2 != r.unwrap() && old(handler)@.map.dom().contains(h2) ==> final(handler)@.map[h2]
                == old(handler)@.map[h2],
{
    handler.add_string_list(strings)
}

} // verus!
