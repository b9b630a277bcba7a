//! The connection registry: single-writer owner of all live connections.
//!
//! Connections are handed to the host as monotonically increasing signed
//! 64-bit handles starting at 1.  A handle is never reused within a process,
//! however many connections are opened and closed in between, so a stale
//! handle can only miss — it can never alias a younger connection.
//!
//! The registry is generic in the vendor connection value it owns; the
//! verified engine never looks inside one.  The other stores of the engine
//! reuse it with their own starting ids.

use vstd::prelude::*;

verus! {

/// The abstract state of the connection registry: the next handle to issue
/// and the map from live handles to their connections.
pub struct ConnectionsView<C> {
    /// The handle the next successful connection will receive.
    pub next: int,
    /// The live connections by handle.
    pub map: Map<i64, C>,
}

impl<C> ConnectionsView<C> {
    /// Well-formed registry state: handles are non-negative, every live
    /// handle has been issued (it is below `next`), and another handle can
    /// still be issued.
    pub open spec fn wf(self) -> bool {
        &&& 0 <= self.next <= i64::MAX
        &&& forall|h: i64| self.map.dom().contains(h) ==> 0 <= h < self.next
    }
}

/// The registry state after a successful connect, with the handle issued
/// for the new connection: the connection is filed under the next handle,
/// and the next handle moves up by one.
pub open spec fn spec_connect<C>(v: ConnectionsView<C>, c: C) -> (ConnectionsView<C>, i64) {
    (
        ConnectionsView { next: v.next + 1, map: v.map.insert(v.next as i64, c) },
        v.next as i64,
    )
}

/// The registry state after a disconnect: the handle's entry is gone; the
/// next handle does not move, so the dead handle is never reissued.
pub open spec fn spec_disconnect<C>(v: ConnectionsView<C>, h: i64) -> ConnectionsView<C> {
    ConnectionsView { next: v.next, map: v.map.remove(h) }
}

/// One command against the connection registry, for stating laws over
/// arbitrary command sequences.
pub enum ConnectionOp<C> {
    /// A successful connect filing the given connection.
    Connect(C),
    /// A disconnect of the given handle.
    Disconnect(i64),
}

/// The registry state after one command.
pub open spec fn spec_apply<C>(v: ConnectionsView<C>, op: ConnectionOp<C>) -> ConnectionsView<C> {
    match op {
        ConnectionOp::Connect(c) => spec_connect(v, c).0,
        ConnectionOp::Disconnect(h) => spec_disconnect(v, h),
    }
}

/// The registry state after a sequence of commands, applied in order.
pub open spec fn spec_apply_all<C>(v: ConnectionsView<C>, ops: Seq<ConnectionOp<C>>) -> ConnectionsView<C>
    decreases ops.len(),
{
    if ops.len() == 0 {
        v
    } else {
        spec_apply_all(spec_apply(v, ops.first()), ops.drop_first())
    }
}

/// Commands never move the next handle down, and they keep the registry
/// well-formed (as long as issuing stays within the handle type's range).
pub proof fn lemma_apply_all_monotone<C>(v: ConnectionsView<C>, ops: Seq<ConnectionOp<C>>)
    requires
        v.wf(),
        v.next + ops.len() <= i64::MAX,
    ensures
        spec_apply_all(v, ops).wf(),
        v.next <= spec_apply_all(v, ops).next <= v.next + ops.len(),
    decreases ops.len(),
{
    if ops.len() > 0 {
        lemma_apply_all_monotone(spec_apply(v, ops.first()), ops.drop_first());
    }
}

/// Monotone handles: a successful connect issues the registry's next
/// handle, and after any further commands a later successful connect
/// issues a strictly larger handle — handles are strictly increasing and
/// never repeated, whatever disconnects happen in between.
pub proof fn lemma_monotone_handles<C>(
    v: ConnectionsView<C>,
    c1: C,
    ops: Seq<ConnectionOp<C>>,
    c2: C,
)
    requires
        v.wf(),
        v.next + ops.len() + 2 <= i64::MAX,
    ensures
        ({
            let (v1, h1) = spec_connect(v, c1);
            let v2 = spec_apply_all(v1, ops);
            let (v3, h2) = spec_connect(v2, c2);
            h1 < h2 && !v.map.dom().contains(h1) && !v2.map.dom().contains(h2)
        }),
{
    let (v1, h1) = spec_connect(v, c1);
    assert(v1.wf());
    lemma_apply_all_monotone(v1, ops);
}

/// The connection registry.  It owns every live connection and is driven
/// by one actor task; everyone else holds only handles.
pub struct ConnectionActor<C> {
    next_handle: i64,
    entries: Vec<(i64, C)>,
}

impl<C> ConnectionActor<C> {
    /// Whether some slot holds the handle.
    spec fn spec_has(self, h: i64) -> bool {
        exists|i: int| 0 <= i < self.entries@.len() && self.entries@[i].0 == h
    }

    /// The slot holding the handle.
    spec fn spec_index_of(self, h: i64) -> int {
        choose|i: int| 0 <= i < self.entries@.len() && self.entries@[i].0 == h
    }

    /// The abstract registry state.
    pub closed spec fn view(&self) -> ConnectionsView<C> {
        ConnectionsView {
            next: self.next_handle as int,
            map: Map::new(
                |h: i64| self.spec_has(h),
                |h: i64| self.entries@[self.spec_index_of(h)].1,
            ),
        }
    }

    /// No two slots hold the same handle.
    spec fn spec_distinct(self) -> bool {
        forall|i: int, j: int|
            0 <= i < j < self.entries@.len() ==> self.entries@[i].0 != self.entries@[j].0
    }

    /// The representation invariant behind [`ConnectionsView::wf`].
    pub closed spec fn wf(self) -> bool {
        &&& self.spec_distinct()
        &&& 0 <= self.next_handle
        &&& forall|i: int|
            0 <= i < self.entries@.len() ==> 0 <= #[trigger] self.entries@[i].0 < self.next_handle
    }

    /// Distinct slots mean each handle names exactly one slot.
    proof fn lemma_index_of(self, i: int)
        requires
            self.spec_distinct(),
            0 <= i < self.entries@.len(),
        ensures
            self.spec_index_of(self.entries@[i].0) == i,
    {
        let h = self.entries@[i].0;
        assert(self.spec_has(h));
        let j = self.spec_index_of(h);
        if i != j {
            assert(self.entries@[i].0 != self.entries@[j].0);
        }
    }

    /// An empty registry that will issue handle 1 first.
    pub fn new() -> (r: ConnectionActor<C>)
        ensures
            r.wf(),
            r@.wf(),
            r@.next == 1,
            r@.map =~= Map::<i64, C>::empty(),
    {
        Self::new_from(1)
    }

    /// An empty registry that will issue the given handle first.
    pub fn new_from(first: i64) -> (r: ConnectionActor<C>)
        requires
            0 <= first,
        ensures
            r.wf(),
            r@.wf(),
            r@.next == first as int,
            r@.map =~= Map::<i64, C>::empty(),
    {
        let r = ConnectionActor { next_handle: first, entries: Vec::new() };
        proof {
            assert forall|h: i64| !r.spec_has(h) by {}
            assert(r@.map =~= Map::<i64, C>::empty());
        }
        r
    }

    /// Files a connection the vendor client opened and issues its handle.
    pub fn connect(&mut self, c: C) -> (h: i64)
        requires
            old(self).wf(),
            old(self)@.next < i64::MAX,
        ensures
            final(self).wf(),
            final(self)@.wf(),
            (final(self)@, h) == spec_connect(old(self)@, c),
    {
        let h = self.next_handle;
        let ghost pre = *self;
        self.entries.push((h, c));
        self.next_handle = self.next_handle + 1;
        proof {
            let post = *self;
            let n = pre.entries@.len() as int;
            assert(post.entries@ == pre.entries@.push((h, c)));
            assert forall|h2: i64| post.spec_has(h2) <==> (pre.spec_has(h2) || h2 == h) by {
                if post.spec_has(h2) {
                    let i = choose|i: int|
                        0 <= i < post.entries@.len() && post.entries@[i].0 == h2;
                    if i < n {
                        assert(pre.entries@[i].0 == h2);
                        assert(pre.spec_has(h2));
                    }
                }
                if pre.spec_has(h2) {
                    let i = choose|i: int| 0 <= i < pre.entries@.len() && pre.entries@[i].0 == h2;
                    assert(post.entries@[i].0 == h2);
                    assert(post.spec_has(h2));
                }
                if h2 == h {
                    assert(post.entries@[n].0 == h2);
                    assert(post.spec_has(h2));
                }
            }
            assert forall|h2: i64| #[trigger] post.spec_has(h2) implies post.entries@[post.spec_index_of(h2)]
                == (if h2 == h { (h, c) } else { pre.entries@[pre.spec_index_of(h2)] }) by {
                let i = post.spec_index_of(h2);
                assert(0 <= i < post.entries@.len() && post.entries@[i].0 == h2);
                if h2 == h {
                    post.lemma_index_of(n);
                } else {
                    assert(i < n);
                    assert(pre.entries@[i].0 == h2);
                    pre.lemma_index_of(i);
                }
            }
            assert(post@.map =~= pre@.map.insert(h, c));
        }
        h
    }

    /// Removes the handle's connection and hands it back.  A stale or
    /// foreign handle changes nothing and yields nothing.
    pub fn take(&mut self, h: i64) -> (r: Option<C>)
        requires
            old(self).wf(),
        ensures
            final(self).wf(),
            r is Some <==> old(self)@.map.dom().contains(h),
            r is Some ==> r.unwrap() == old(self)@.map[h],
            final(self)@ == spec_disconnect(old(self)@, h),
    {
        let ghost pre = *self;
        let mut i: usize = 0;
        let n = self.entries.len();
        while i < n
            invariant
                *self == pre,
                pre == *old(self),
                pre.wf(),
                n == self.entries@.len(),
                i <= n,
                forall|j: int| 0 <= j < i ==> self.entries@[j].0 != h,
            decreases n - i,
        {
            if self.entries[i].0 == h {
                proof {
                    assert(pre.spec_has(h));
                    pre.lemma_index_of(i as int);
                }
                let e = self.entries.remove(i);
                proof {
                    let post = *self;
                    assert(post.entries@ == pre.entries@.subrange(0, i as int) + pre.entries@.subrange(
                        i + 1,
                        pre.entries@.len() as int,
                    ));
                    let np = post.entries@.len() as int;
                    assert forall|h2: i64| post.spec_has(h2) <==> (pre.spec_has(h2) && h2 != h) by {
                        if post.spec_has(h2) {
                            let j = choose|j: int| 0 <= j < np && post.entries@[j].0 == h2;
                            if j < i {
                                assert(pre.entries@[j].0 == h2);
                                assert(pre.spec_has(h2));
                                assert(h2 != h);
                            } else {
                                assert(post.entries@[j] == pre.entries@[j + 1]);
                                assert(pre.spec_has(h2));
                                assert(h2 != h);
                            }
                        }
                        if pre.spec_has(h2) && h2 != h {
                            let j = choose|j: int|
                                0 <= j < pre.entries@.len() && pre.entries@[j].0 == h2;
                            if j < i {
                                assert(post.entries@[j].0 == h2);
                            } else {
                                assert(j > i);
                                assert(post.entries@[j - 1] == pre.entries@[j]);
                            }
                            assert(post.spec_has(h2));
                        }
                    }
                    assert forall|h2: i64| #[trigger] post.spec_has(h2) implies post.entries@[post.spec_index_of(
                        h2,
                    )] == pre.entries@[pre.spec_index_of(h2)] by {
                        let j = post.spec_index_of(h2);
                        assert(0 <= j < np && post.entries@[j].0 == h2);
                        if j < i {
                            assert(pre.entries@[j].0 == h2);
                            pre.lemma_index_of(j);
                        } else {
                            assert(post.entries@[j] == pre.entries@[j + 1]);
                            pre.lemma_index_of(j + 1);
                        }
                    }
                    assert(post@.map =~= pre@.map.remove(h));
                }
                return Some(e.1);
            }
            i = i + 1;
        }
        proof {
            assert(!pre.spec_has(h));
            assert(self@.map =~= pre@.map.remove(h));
        }
        None
    }

    /// Removes the handle's connection.  The result says whether the
    /// handle was live; a stale or foreign handle changes nothing.
    pub fn disconnect(&mut self, h: i64) -> (found: bool)
        requires
            old(self).wf(),
        ensures
            final(self).wf(),
            found == old(self)@.map.dom().contains(h),
            final(self)@ == spec_disconnect(old(self)@, h),
    {
        let r = self.take(h);
        r.is_some()
    }

    /// Drains the registry when the engine quits: every connection is
    /// dropped, and the next handle stays where it was, so handles are not
    /// reused even across a drain.
    pub fn clear(&mut self)
        requires
            old(self).wf(),
        ensures
            final(self).wf(),
            final(self)@.next == old(self)@.next,
            final(self)@.map =~= Map::<i64, C>::empty(),
    {
        self.entries = Vec::new();
        proof {
            assert forall|h: i64| !self.spec_has(h) by {}
            assert(self@.map =~= Map::<i64, C>::empty());
        }
    }

    /// The connection a handle names, if the handle is live.  Handlers
    /// clone the (internally reference-shared) value they get back and let
    /// the actor move on.
    pub fn get(&self, h: i64) -> (r: Option<&C>)
        requires
            self.wf(),
        ensures
            r is Some <==> self@.map.dom().contains(h),
            r is Some ==> *r.unwrap() == self@.map[h],
    {
        let mut i: usize = 0;
        let n = self.entries.len();
        while i < n
            invariant
                self.wf(),
                n == self.entries@.len(),
                i <= n,
                forall|j: int| 0 <= j < i ==> self.entries@[j].0 != h,
            decreases n - i,
        {
            if self.entries[i].0 == h {
                proof {
                    self.lemma_index_of(i as int);
                }
                return Some(&self.entries[i].1);
            }
            i = i + 1;
        }
        proof {
            assert(!self.spec_has(h));
        }
        None
    }

}

} // verus!
