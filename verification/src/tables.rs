//! The table registry: single-writer owner of all open tables.
//!
//! Tables are keyed by the pair (connection handle, table handle), so a
//! table handle obtained against one connection can never be used against
//! another, and a departing connection can collect every table that belongs
//! to it.  Table handles come from one process-wide monotone counter
//! starting at 1 and are never reused.  Each entry remembers the table name
//! it was opened or created under, so dropping a table by name can
//! invalidate every cached entry that refers to it under that connection.
//!
//! The registry is generic in the vendor table value it owns; the verified
//! engine never looks inside one.

use vstd::prelude::*;

verus! {

/// What the registry knows of one open table.
pub struct TableSlot<T> {
    /// The name the table was opened or created under.
    pub name: Seq<char>,
    /// The vendor table value.
    pub value: T,
}

/// The abstract state of the table registry: the next table handle to
/// issue and the map from (connection handle, table handle) to slots.
pub struct TablesView<T> {
    /// The handle the next opened or created table will receive.
    pub next: int,
    /// The open tables by composite key.
    pub map: Map<(i64, i64), TableSlot<T>>,
}

impl<T> TablesView<T> {
    /// Well-formed registry state: handles start at 1, every live handle
    /// has been issued, and another handle can still be issued.
    pub open spec fn wf(self) -> bool {
        &&& 1 <= self.next <= i64::MAX
        &&& forall|k: (i64, i64)| self.map.dom().contains(k) ==> 1 <= k.1 < self.next
    }
}

/// The registry state after a table was opened or created under a
/// connection, with the handle issued for it.
pub open spec fn spec_add<T>(v: TablesView<T>, conn: i64, name: Seq<char>, t: T) -> (
    TablesView<T>,
    i64,
) {
    (
        TablesView {
            next: v.next + 1,
            map: v.map.insert((conn, v.next as i64), TableSlot { name, value: t }),
        },
        v.next as i64,
    )
}

/// The registry state after one entry is released; releasing an absent key
/// changes nothing.
pub open spec fn spec_release<T>(v: TablesView<T>, conn: i64, h: i64) -> TablesView<T> {
    TablesView { next: v.next, map: v.map.remove((conn, h)) }
}

/// The registry state after a connection departs: every table keyed under
/// it is gone.
pub open spec fn spec_remove_connection<T>(v: TablesView<T>, conn: i64) -> TablesView<T> {
    TablesView {
        next: v.next,
        map: Map::new(
            |k: (i64, i64)| v.map.dom().contains(k) && k.0 != conn,
            |k: (i64, i64)| v.map[k],
        ),
    }
}

/// The registry state after a table is dropped by name under a connection:
/// every cached entry with that name under that connection is gone.
pub open spec fn spec_drop_name<T>(v: TablesView<T>, conn: i64, name: Seq<char>) -> TablesView<T> {
    TablesView {
        next: v.next,
        map: Map::new(
            |k: (i64, i64)| v.map.dom().contains(k) && !(k.0 == conn && v.map[k].name == name),
            |k: (i64, i64)| v.map[k],
        ),
    }
}

/// One command against the table registry, for stating laws over
/// arbitrary command sequences.
pub enum TableOp<T> {
    /// A successful open or create filing the given table.
    Add(i64, Seq<char>, T),
    /// A release of one cached entry.
    Release(i64, i64),
    /// A drop by name under a connection.
    DropName(i64, Seq<char>),
    /// A departing connection.
    RemoveConnection(i64),
}

/// The registry state after one command.
pub open spec fn spec_apply<T>(v: TablesView<T>, op: TableOp<T>) -> TablesView<T> {
    match op {
        TableOp::Add(conn, name, t) => spec_add(v, conn, name, t).0,
        TableOp::Release(conn, h) => spec_release(v, conn, h),
        TableOp::DropName(conn, name) => spec_drop_name(v, conn, name),
        TableOp::RemoveConnection(conn) => spec_remove_connection(v, conn),
    }
}

/// The registry state after a sequence of commands, applied in order.
pub open spec fn spec_apply_all<T>(v: TablesView<T>, ops: Seq<TableOp<T>>) -> TablesView<T>
    decreases ops.len(),
{
    if ops.len() == 0 {
        v
    } else {
        spec_apply_all(spec_apply(v, ops.first()), ops.drop_first())
    }
}

/// Commands never move the next handle down, and they keep the registry
/// well-formed (as long as issuing stays within the handle type's range).
pub proof fn lemma_apply_all_monotone<T>(v: TablesView<T>, ops: Seq<TableOp<T>>)
    requires
        v.wf(),
        v.next + ops.len() <= i64::MAX,
    ensures
        spec_apply_all(v, ops).wf(),
        v.next <= spec_apply_all(v, ops).next <= v.next + ops.len(),
    decreases ops.len(),
{
    if ops.len() > 0 {
        lemma_apply_all_monotone(spec_apply(v, ops.first()), ops.drop_first());
    }
}

/// Monotone table handles: a successful open issues the registry's next
/// handle, and after any further commands a later successful open issues a
/// strictly larger handle — table handles are strictly increasing and
/// never repeated, whatever releases and drops happen in between.
pub proof fn lemma_monotone_handles<T>(
    v: TablesView<T>,
    conn1: i64,
    name1: Seq<char>,
    t1: T,
    ops: Seq<TableOp<T>>,
    conn2: i64,
    name2: Seq<char>,
    t2: T,
)
    requires
        v.wf(),
        v.next + ops.len() + 2 <= i64::MAX,
    ensures
        ({
            let (v1, h1) = spec_add(v, conn1, name1, t1);
            let v2 = spec_apply_all(v1, ops);
            let (v3, h2) = spec_add(v2, conn2, name2, t2);
            h1 < h2 && forall|c: i64| !v.map.dom().contains((c, h1)) && !v2.map.dom().contains(
                (c, h2),
            )
        }),
{
    let (v1, h1) = spec_add(v, conn1, name1, t1);
    assert(v1.wf());
    lemma_apply_all_monotone(v1, ops);
}

/// Cross-connection isolation: a table opened under one connection is
/// keyed under that connection alone — the same handle looked up under any
/// other connection misses, and a table opened under another connection
/// (whenever that happens) gets a different handle.
pub proof fn lemma_cross_connection_isolation<T>(
    v: TablesView<T>,
    conn_a: i64,
    conn_b: i64,
    name: Seq<char>,
    t: T,
)
    requires
        v.wf(),
        v.next + 1 <= i64::MAX,
        conn_a != conn_b,
    ensures
        ({
            let (v1, h) = spec_add(v, conn_a, name, t);
            v1.map.dom().contains((conn_a, h)) && !v1.map.dom().contains((conn_b, h))
        }),
{
}

/// Release cascade: after a connection departs, no table keyed under it is
/// live any more, while every table of every other connection is exactly
/// as it was.
pub proof fn lemma_release_cascade<T>(v: TablesView<T>, conn: i64)
    ensures
        forall|h: i64| !spec_remove_connection(v, conn).map.dom().contains((conn, h)),
        forall|k: (i64, i64)|
            k.0 != conn ==> (#[trigger] spec_remove_connection(v, conn).map.dom().contains(k)
                == v.map.dom().contains(k)),
        forall|k: (i64, i64)|
            k.0 != conn && v.map.dom().contains(k)
                ==> #[trigger] spec_remove_connection(v, conn).map[k] == v.map[k],
{
}

/// Dropping a table by name invalidates every cached entry with that name
/// under that connection and nothing else.
pub proof fn lemma_drop_invalidates<T>(v: TablesView<T>, conn: i64, name: Seq<char>)
    ensures
        forall|k: (i64, i64)|
            #[trigger] spec_drop_name(v, conn, name).map.dom().contains(k) <==> (v.map.dom().contains(
                k,
            ) && !(k.0 == conn && v.map[k].name == name)),
        forall|k: (i64, i64)|
            spec_drop_name(v, conn, name).map.dom().contains(k)
                ==> #[trigger] spec_drop_name(v, conn, name).map[k] == v.map[k],
{
}

/// One stored table: its composite key, its name, and the vendor value.
struct TableEntry<T> {
    conn: i64,
    handle: i64,
    name: String,
    value: T,
}

impl<T> TableEntry<T> {
    /// The composite key of this entry.
    spec fn key(self) -> (i64, i64) {
        (self.conn, self.handle)
    }

    /// The slot this entry stores.
    spec fn slot(self) -> TableSlot<T> {
        TableSlot { name: self.name@, value: self.value }
    }

    /// Whether a removal request matches this entry: always by connection,
    /// and additionally by name when the request names one.
    spec fn matches(self, conn: i64, by_name: bool, name: Seq<char>) -> bool {
        self.conn == conn && (!by_name || self.name@ == name)
    }
}

/// The table registry.  It owns every open table and is driven by one
/// actor task; everyone else holds only handles.
pub struct TableActor<T> {
    next_handle: i64,
    entries: Vec<TableEntry<T>>,
}

impl<T> TableActor<T> {
    /// Whether some slot holds the key.
    spec fn spec_has(self, k: (i64, i64)) -> bool {
        exists|i: int| 0 <= i < self.entries@.len() && self.entries@[i].key() == k
    }

    /// The slot holding the key.
    spec fn spec_index_of(self, k: (i64, i64)) -> int {
        choose|i: int| 0 <= i < self.entries@.len() && self.entries@[i].key() == k
    }

    /// The abstract registry state.
    pub closed spec fn view(&self) -> TablesView<T> {
        TablesView {
            next: self.next_handle as int,
            map: Map::new(
                |k: (i64, i64)| self.spec_has(k),
                |k: (i64, i64)| self.entries@[self.spec_index_of(k)].slot(),
            ),
        }
    }

    /// No two slots hold the same key.
    spec fn spec_distinct(self) -> bool {
        forall|i: int, j: int|
            0 <= i < j < self.entries@.len() ==> self.entries@[i].key() != self.entries@[j].key()
    }

    /// The representation invariant behind [`TablesView::wf`].
    pub closed spec fn wf(self) -> bool {
        &&& self.spec_distinct()
        &&& 1 <= self.next_handle
        &&& forall|i: int|
            0 <= i < self.entries@.len() ==> 1 <= #[trigger] self.entries@[i].handle
                < self.next_handle
    }

    /// Distinct slots mean each key names exactly one slot.
    proof fn lemma_index_of(self, i: int)
        requires
            self.spec_distinct(),
            0 <= i < self.entries@.len(),
        ensures
            self.spec_index_of(self.entries@[i].key()) == i,
    {
        let k = self.entries@[i].key();
        assert(self.spec_has(k));
        let j = self.spec_index_of(k);
        if i != j {
            assert(self.entries@[i].key() != self.entries@[j].key());
        }
    }

    /// An empty registry that will issue handle 1 first.
    pub fn new() -> (r: TableActor<T>)
        ensures
            r.wf(),
            r@.wf(),
            r@.next == 1,
            r@.map =~= Map::<(i64, i64), TableSlot<T>>::empty(),
    {
        let r = TableActor { next_handle: 1, entries: Vec::new() };
        proof {
            assert forall|k: (i64, i64)| !r.spec_has(k) by {}
            assert(r@.map =~= Map::<(i64, i64), TableSlot<T>>::empty());
        }
        r
    }

    /// Files a table the vendor client opened or created under the given
    /// connection and issues its handle.
    pub fn add(&mut self, conn: i64, name: String, t: T) -> (h: i64)
        requires
            old(self).wf(),
            old(self)@.next < i64::MAX,
        ensures
            final(self).wf(),
            final(self)@.wf(),
            (final(self)@, h) == spec_add(old(self)@, conn, name@, t),
    {
        let h = self.next_handle;
        let ghost pre = *self;
        let ghost e = TableEntry { conn, handle: h, name, value: t };
        let entry = TableEntry { conn, handle: h, name, value: t };
        proof {
            assert(entry == e);
        }
        self.entries.push(entry);
        self.next_handle = self.next_handle + 1;
        proof {
            let post = *self;
            let n = pre.entries@.len() as int;
            let k = (conn, h);
            assert(post.entries@ == pre.entries@.push(e));
            assert forall|k2: (i64, i64)| post.spec_has(k2) <==> (pre.spec_has(k2) || k2 == k) by {
                if post.spec_has(k2) {
                    let i = choose|i: int|
                        0 <= i < post.entries@.len() && post.entries@[i].key() == k2;
                    if i < n {
                        assert(pre.entries@[i].key() == k2);
                        assert(pre.spec_has(k2));
                    }
                }
                if pre.spec_has(k2) {
                    let i = choose|i: int|
                        0 <= i < pre.entries@.len() && pre.entries@[i].key() == k2;
                    assert(post.entries@[i].key() == k2);
                    assert(post.spec_has(k2));
                }
                if k2 == k {
                    assert(post.entries@[n].key() == k2);
                    assert(post.spec_has(k2));
                }
            }
            assert forall|k2: (i64, i64)| #[trigger] post.spec_has(k2)
                implies post.entries@[post.spec_index_of(k2)] == (if k2 == k {
                e
            } else {
                pre.entries@[pre.spec_index_of(k2)]
            }) by {
                let i = post.spec_index_of(k2);
                assert(0 <= i < post.entries@.len() && post.entries@[i].key() == k2);
                if k2 == k {
                    post.lemma_index_of(n);
                } else {
                    assert(i < n);
                    assert(pre.entries@[i].key() == k2);
                    pre.lemma_index_of(i);
                }
            }
            assert(post@.map =~= pre@.map.insert(k, TableSlot { name: e.name@, value: e.value }));
        }
        h
    }

    /// Drains the registry when the engine quits: every table is dropped,
    /// and the next handle stays where it was, so handles are not reused
    /// even across a drain.
    pub fn clear(&mut self)
        requires
            old(self).wf(),
        ensures
            final(self).wf(),
            final(self)@.next == old(self)@.next,
            final(self)@.map =~= Map::<(i64, i64), TableSlot<T>>::empty(),
    {
        self.entries = Vec::new();
        proof {
            assert forall|k: (i64, i64)| !self.spec_has(k) by {}
            assert(self@.map =~= Map::<(i64, i64), TableSlot<T>>::empty());
        }
    }

    /// The table a composite key names, if it is live.  A handle under the
    /// wrong connection misses exactly like a stale one.
    pub fn get(&self, conn: i64, h: i64) -> (r: Option<&T>)
        requires
            self.wf(),
        ensures
            r is Some <==> self@.map.dom().contains((conn, h)),
            r is Some ==> *r.unwrap() == self@.map[(conn, h)].value,
    {
        let ghost k = (conn, h);
        let mut i: usize = 0;
        let n = self.entries.len();
        while i < n
            invariant
                self.wf(),
                k == (conn, h),
                n == self.entries@.len(),
                i <= n,
                forall|j: int| 0 <= j < i ==> self.entries@[j].key() != k,
            decreases n - i,
        {
            if self.entries[i].conn == conn && self.entries[i].handle == h {
                proof {
                    assert(self.entries@[i as int].key() == k);
                    self.lemma_index_of(i as int);
                }
                return Some(&self.entries[i].value);
            }
            proof {
                assert(self.entries@[i as int].key() != k);
            }
            i = i + 1;
        }
        proof {
            assert(!self.spec_has(k));
        }
        None
    }

    /// Whether a removal request matches the slot filed under a key.
    spec fn spec_matches_slot(k: (i64, i64), slot: TableSlot<T>, conn: i64, by_name: bool, name: Seq<char>) -> bool {
        k.0 == conn && (!by_name || slot.name == name)
    }

    /// Removes the entry in one slot, shrinking the map by exactly its key.
    fn remove_index(&mut self, i: usize)
        requires
            old(self).wf(),
            i < old(self).entries@.len(),
        ensures
            final(self).wf(),
            final(self)@.next == old(self)@.next,
            final(self)@.map == old(self)@.map.remove(old(self).entries@[i as int].key()),
            final(self).entries@.len() == old(self).entries@.len() - 1,
    {
        let ghost pre = *self;
        let ghost k0 = pre.entries@[i as int].key();
        proof {
            assert(pre.spec_has(k0));
            pre.lemma_index_of(i as int);
        }
        self.entries.remove(i);
        proof {
            let post = *self;
            assert(post.entries@ == pre.entries@.subrange(0, i as int) + pre.entries@.subrange(
                i + 1,
                pre.entries@.len() as int,
            ));
            let np = post.entries@.len() as int;
            assert forall|k2: (i64, i64)| post.spec_has(k2) <==> (pre.spec_has(k2) && k2 != k0) by {
                if post.spec_has(k2) {
                    let j = choose|j: int| 0 <= j < np && post.entries@[j].key() == k2;
                    if j < i {
                        assert(post.entries@[j] == pre.entries@[j]);
                        assert(pre.spec_has(k2));
                        assert(pre.entries@[j].key() != pre.entries@[i as int].key());
                    } else {
                        assert(post.entries@[j] == pre.entries@[j + 1]);
                        assert(pre.spec_has(k2));
                        assert(pre.entries@[j + 1].key() != pre.entries@[i as int].key());
                    }
                }
                if pre.spec_has(k2) && k2 != k0 {
                    let j = choose|j: int|
                        0 <= j < pre.entries@.len() && pre.entries@[j].key() == k2;
                    if j < i {
                        assert(post.entries@[j].key() == k2);
                    } else {
                        assert(j != i);
                        assert(post.entries@[j - 1] == pre.entries@[j]);
                    }
                    assert(post.spec_has(k2));
                }
            }
            assert forall|k2: (i64, i64)| #[trigger] post.spec_has(k2)
                implies post.entries@[post.spec_index_of(k2)] == pre.entries@[pre.spec_index_of(
                k2,
            )] by {
                let j = post.spec_index_of(k2);
                assert(0 <= j < np && post.entries@[j].key() == k2);
                if j < i {
                    assert(post.entries@[j] == pre.entries@[j]);
                    pre.lemma_index_of(j);
                } else {
                    assert(post.entries@[j] == pre.entries@[j + 1]);
                    pre.lemma_index_of(j + 1);
                }
            }
            assert(post@.map =~= pre@.map.remove(k0));
        }
    }

    /// The first slot a removal request matches, if any.
    fn find_matching(&self, conn: i64, by_name: bool, name: &String) -> (r: Option<usize>)
        requires
            self.wf(),
        ensures
            match r {
                Some(j) => j < self.entries@.len() && self.entries@[j as int].matches(
                    conn,
                    by_name,
                    name@,
                ),
                None => forall|j: int|
                    0 <= j < self.entries@.len() ==> !(#[trigger] self.entries@[j]).matches(
                        conn,
                        by_name,
                        name@,
                    ),
            },
    {
        let mut i: usize = 0;
        let n = self.entries.len();
        while i < n
            invariant
                self.wf(),
                n == self.entries@.len(),
                i <= n,
                forall|j: int|
                    0 <= j < i ==> !(#[trigger] self.entries@[j]).matches(conn, by_name, name@),
            decreases n - i,
        {
            if self.entries[i].conn == conn && (!by_name || self.entries[i].name.eq(name)) {
                return Some(i);
            }
            i = i + 1;
        }
        None
    }

    /// Removes every entry the request matches: all entries of a departing
    /// connection, or all entries with the given name under it.
    fn remove_matching(&mut self, conn: i64, by_name: bool, name: &String)
        requires
            old(self).wf(),
        ensures
            final(self).wf(),
            final(self)@.next == old(self)@.next,
            final(self)@.map =~= Map::new(
                |k: (i64, i64)| old(self)@.map.dom().contains(k) && !Self::spec_matches_slot(
                    k,
                    old(self)@.map[k],
                    conn,
                    by_name,
                    name@,
                ),
                |k: (i64, i64)| old(self)@.map[k],
            ),
    {
        let ghost pre = *self;
        let mut done = false;
        while !done
            invariant
                pre == *old(self),
                pre.wf(),
                self.wf(),
                self@.next == pre@.next,
                forall|k: (i64, i64)| #[trigger] self@.map.dom().contains(k)
                    ==> pre@.map.dom().contains(k) && self@.map[k] == pre@.map[k],
                forall|k: (i64, i64)|
                    pre@.map.dom().contains(k) && !Self::spec_matches_slot(
                        k,
                        pre@.map[k],
                        conn,
                        by_name,
                        name@,
                    ) ==> #[trigger] self@.map.dom().contains(k),
                done ==> forall|k: (i64, i64)| #[trigger] self@.map.dom().contains(k)
                    ==> !Self::spec_matches_slot(k, self@.map[k], conn, by_name, name@),
            decreases self.entries@.len(), (if done { 0int } else { 1int }),
        {
            let found = self.find_matching(conn, by_name, name);
            match found {
                Some(j) => {
                    let ghost k0 = self.entries@[j as int].key();
                    proof {
                        self.lemma_index_of(j as int);
                        assert(self@.map.dom().contains(k0));
                        assert(self@.map[k0] == self.entries@[j as int].slot());
                        assert(Self::spec_matches_slot(
                            k0,
                            self@.map[k0],
                            conn,
                            by_name,
                            name@,
                        ));
                        assert(Self::spec_matches_slot(
                            k0,
                            pre@.map[k0],
                            conn,
                            by_name,
                            name@,
                        ));
                    }
                    self.remove_index(j);
                }
                None => {
                    proof {
                        assert forall|k: (i64, i64)| #[trigger] self@.map.dom().contains(k)
                            implies !Self::spec_matches_slot(
                            k,
                            self@.map[k],
                            conn,
                            by_name,
                            name@,
                        ) by {
                            let i0 = self.spec_index_of(k);
                            assert(self.spec_has(k));
                            assert(0 <= i0 < self.entries@.len() && self.entries@[i0].key() == k);
                            assert(!self.entries@[i0].matches(conn, by_name, name@));
                            assert(self@.map[k] == self.entries@[i0].slot());
                        }
                    }
                    done = true;
                }
            }
        }
        proof {
            assert forall|k: (i64, i64)| #[trigger] self@.map.dom().contains(k) <==> (
            pre@.map.dom().contains(k) && !Self::spec_matches_slot(
                k,
                pre@.map[k],
                conn,
                by_name,
                name@,
            )) by {
                if self@.map.dom().contains(k) {
                    assert(self@.map[k] == pre@.map[k]);
                }
            }
            assert(self@.map =~= Map::new(
                |k: (i64, i64)| pre@.map.dom().contains(k) && !Self::spec_matches_slot(
                    k,
                    pre@.map[k],
                    conn,
                    by_name,
                    name@,
                ),
                |k: (i64, i64)| pre@.map[k],
            ));
        }
    }

    /// The slot holding a composite key, if any.
    fn find_key(&self, conn: i64, h: i64) -> (r: Option<usize>)
        requires
            self.wf(),
        ensures
            match r {
                Some(j) => j < self.entries@.len() && self.entries@[j as int].key() == (conn, h),
                None => !self@.map.dom().contains((conn, h)),
            },
    {
        let mut i: usize = 0;
        let n = self.entries.len();
        while i < n
            invariant
                self.wf(),
                n == self.entries@.len(),
                i <= n,
                forall|j: int| 0 <= j < i ==> self.entries@[j].key() != (conn, h),
            decreases n - i,
        {
            if self.entries[i].conn == conn && self.entries[i].handle == h {
                proof {
                    assert(self.entries@[i as int].key() == (conn, h));
                }
                return Some(i);
            }
            proof {
                assert(self.entries@[i as int].key() != (conn, h));
            }
            i = i + 1;
        }
        proof {
            assert(!self.spec_has((conn, h)));
        }
        None
    }

    /// Releases one cached entry; releasing an absent key is a silent
    /// no-op.
    pub fn release(&mut self, conn: i64, h: i64)
        requires
            old(self).wf(),
        ensures
            final(self).wf(),
            final(self)@ == spec_release(old(self)@, conn, h),
    {
        let found = self.find_key(conn, h);
        match found {
            Some(j) => {
                self.remove_index(j);
            }
            None => {
                proof {
                    assert(self@.map =~= self@.map.remove((conn, h)));
                }
            }
        }
    }

    /// Collects every table keyed under a departing connection.
    pub fn remove_connection(&mut self, conn: i64)
        requires
            old(self).wf(),
        ensures
            final(self).wf(),
            final(self)@ == spec_remove_connection(old(self)@, conn),
    {
        let name = String::new();
        self.remove_matching(conn, false, &name);
        proof {
            assert(self@.map =~= spec_remove_connection(old(self)@, conn).map);
        }
    }

    /// Removes every cached entry with the given name under the
    /// connection, ahead of the vendor dropping the table itself.
    pub fn drop_by_name(&mut self, conn: i64, name: &String)
        requires
            old(self).wf(),
        ensures
            final(self).wf(),
            final(self)@ == spec_drop_name(old(self)@, conn, name@),
    {
        self.remove_matching(conn, true, name);
        proof {
            assert(self@.map =~= spec_drop_name(old(self)@, conn, name@).map);
        }
    }
}

} // verus!
