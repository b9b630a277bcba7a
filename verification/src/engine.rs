//! The engine core behind the command dispatcher.
//!
//! The dispatcher's loop lives on the worker runtime outside this crate; it
//! receives one command at a time and spawns a handler task per command.
//! Everything a handler *decides* — which registry entry a handle names,
//! what a departing connection takes with it, which envelope a vendor
//! outcome becomes, and the exact error text the host reads — happens in
//! this module, against the two registries.  The vendor calls themselves
//! (connect, open, query, drop) are performed by the host layer between
//! these calls, which hand their outcomes back in as plain values.

use vstd::prelude::*;
use vstd::string::StringExecFns;
use crate::text::{contains_chars, spec_contains_seq, string_chars};
use crate::connections::{ConnectionActor, ConnectionsView, spec_connect, spec_disconnect};
use crate::tables::{TableActor, TablesView, spec_add, spec_release, spec_remove_connection, spec_drop_name, TableSlot};
use crate::envelope::CommandResult;

verus! {

/// Builds the error text `prefix` followed by `detail`.
pub fn prefixed_error(prefix: &str, detail: &str) -> (r: String)
    ensures
        r@ == prefix@ + detail@,
{
    let mut s = String::from_str(prefix);
    s.append(detail);
    s
}

/// The registries the dispatcher owns: all live connections and all open
/// tables, each behind its single-writer actor.
pub struct EngineCore<C, T> {
    connections: ConnectionActor<C>,
    tables: TableActor<T>,
}

impl<C, T> EngineCore<C, T> {
    /// The abstract state of the connection registry.
    pub closed spec fn conns_view(&self) -> ConnectionsView<C> {
        self.connections@
    }

    /// The abstract state of the table registry.
    pub closed spec fn tables_view(&self) -> TablesView<T> {
        self.tables@
    }

    /// Both registries are well-formed, and both handle spaces start at 1
    /// as the dispatcher promises the host.
    pub closed spec fn wf(&self) -> bool {
        &&& self.connections.wf()
        &&& self.tables.wf()
        &&& self.conns_view().wf()
        &&& self.tables_view().wf()
        &&& 1 <= self.conns_view().next
        &&& 1 <= self.tables_view().next
    }

    /// A fresh engine core with empty registries; the first connection
    /// gets handle 1, and so does the first table.
    pub fn new() -> (r: EngineCore<C, T>)
        ensures
            r.wf(),
            r.conns_view().next == 1,
            r.conns_view().map =~= Map::<i64, C>::empty(),
            r.tables_view().next == 1,
            r.tables_view().map =~= Map::<(i64, i64), TableSlot<T>>::empty(),
    {
        EngineCore { connections: ConnectionActor::new(), tables: TableActor::new() }
    }

    /// Files a connection the vendor client opened and issues the handle
    /// the host will use for it.  The reply envelope for the command is
    /// the handle itself.
    pub fn register_connection(&mut self, c: C) -> (h: i64)
        requires
            old(self).wf(),
            old(self).conns_view().next < i64::MAX,
        ensures
            final(self).wf(),
            (final(self).conns_view(), h) == spec_connect(old(self).conns_view(), c),
            final(self).tables_view() == old(self).tables_view(),
            h >= 1,
    {
        self.connections.connect(c)
    }

    /// The envelope for a connect the vendor client refused.
    pub fn connect_error(detail: &String) -> (r: CommandResult)
        ensures
            r is Err && r->Err_0@ == "Error acquiring connection: "@ + detail@,
    {
        Err(prefixed_error("Error acquiring connection: ", detail.as_str()))
    }

    /// The connection a handle names, if it is live.  Handlers clone the
    /// (internally reference-shared) value they get and release the actor.
    pub fn get_connection(&self, h: i64) -> (r: Option<&C>)
        requires
            self.wf(),
        ensures
            r is Some <==> self.conns_view().map.dom().contains(h),
            r is Some ==> *r.unwrap() == self.conns_view().map[h],
    {
        self.connections.get(h)
    }

    /// Disconnects a handle.  A live handle takes every table opened under
    /// it along — the release cascade — and replies success; a stale or
    /// foreign handle changes nothing and replies that the connection was
    /// not found.
    pub fn disconnect(&mut self, h: i64) -> (r: CommandResult)
        requires
            old(self).wf(),
        ensures
            final(self).wf(),
            final(self).conns_view() == spec_disconnect(old(self).conns_view(), h),
            old(self).conns_view().map.dom().contains(h) ==> (final(self).tables_view()
                == spec_remove_connection(old(self).tables_view(), h) && r == Ok::<i64, String>(0)),
            !old(self).conns_view().map.dom().contains(h) ==> (final(self).tables_view()
                == old(self).tables_view() && r is Err && r->Err_0@ == "Connection not found"@),
    {
        let found = self.connections.disconnect(h);
        if found {
            self.tables.remove_connection(h);
            Ok(0)
        } else {
            Err(String::from_str("Connection not found"))
        }
    }

    /// Files a table the vendor client opened or created under the given
    /// connection and issues the handle the host will use for it.  The
    /// reply envelope for the command is the handle itself.
    pub fn register_table(&mut self, conn: i64, name: String, t: T) -> (h: i64)
        requires
            old(self).wf(),
            old(self).tables_view().next < i64::MAX,
        ensures
            final(self).wf(),
            (final(self).tables_view(), h) == spec_add(old(self).tables_view(), conn, name@, t),
            final(self).conns_view() == old(self).conns_view(),
            h >= 1,
    {
        self.tables.add(conn, name, t)
    }

    /// The envelope for an open the vendor client refused.
    pub fn open_table_error(detail: &String) -> (r: CommandResult)
        ensures
            r is Err && r->Err_0@ == "Error opening table: "@ + detail@,
    {
        Err(prefixed_error("Error opening table: ", detail.as_str()))
    }

    /// The envelope for a create the vendor client refused.
    pub fn create_table_error(detail: &String) -> (r: CommandResult)
        ensures
            r is Err && r->Err_0@ == "Error creating table: "@ + detail@,
    {
        Err(prefixed_error("Error creating table: ", detail.as_str()))
    }

    /// The table a composite key names, if it is live.  A handle under the
    /// wrong connection misses exactly like a stale one.
    pub fn get_table(&self, conn: i64, h: i64) -> (r: Option<&T>)
        requires
            self.wf(),
        ensures
            r is Some <==> self.tables_view().map.dom().contains((conn, h)),
            r is Some ==> *r.unwrap() == self.tables_view().map[(conn, h)].value,
    {
        self.tables.get(conn, h)
    }

    /// The envelope every handler reports when its table handle misses.
    pub fn table_not_found() -> (r: CommandResult)
        ensures
            r is Err && r->Err_0@ == "Table not found"@,
    {
        Err(String::from_str("Table not found"))
    }

    /// The envelope every handler reports when its connection handle
    /// misses.
    pub fn connection_not_found() -> (r: CommandResult)
        ensures
            r is Err && r->Err_0@ == "Connection not found"@,
    {
        Err(String::from_str("Connection not found"))
    }

    /// Releases one cached table entry and replies success whether or not
    /// the entry was live.
    pub fn close_table(&mut self, conn: i64, h: i64) -> (r: CommandResult)
        requires
            old(self).wf(),
        ensures
            final(self).wf(),
            final(self).tables_view() == spec_release(old(self).tables_view(), conn, h),
            final(self).conns_view() == old(self).conns_view(),
            r == Ok::<i64, String>(0),
    {
        self.tables.release(conn, h);
        Ok(0)
    }

    /// First half of a drop-table command: invalidates every cached entry
    /// with that name under the connection, before the host layer asks the
    /// vendor to drop the table itself.
    pub fn drop_table_begin(&mut self, conn: i64, name: &String)
        requires
            old(self).wf(),
        ensures
            final(self).wf(),
            final(self).tables_view() == spec_drop_name(old(self).tables_view(), conn, name@),
            final(self).conns_view() == old(self).conns_view(),
    {
        self.tables.drop_by_name(conn, name);
    }

    /// Second half of a drop-table command: the envelope for the vendor's
    /// outcome.  When the caller asked for missing tables to be ignored,
    /// only a vendor failure that indicates a missing table counts as
    /// success; every other failure is reported.
    pub fn drop_table_result(ignore_missing: bool, vendor: Result<(), String>) -> (r: CommandResult)
        ensures
            vendor is Ok ==> r == Ok::<i64, String>(0),
            vendor is Err && ignore_missing && spec_indicates_missing(vendor->Err_0@) ==> r
                == Ok::<i64, String>(0),
            vendor is Err && !(ignore_missing && spec_indicates_missing(vendor->Err_0@)) ==> (
            r is Err && r->Err_0@ == "Error dropping table: "@ + vendor->Err_0@),
    {
        match vendor {
            Ok(_) => Ok(0),
            Err(e) => {
                if ignore_missing && message_indicates_missing(&e) {
                    Ok(0)
                } else {
                    Err(prefixed_error("Error dropping table: ", e.as_str()))
                }
            },
        }
    }

    /// The envelope for a count-rows outcome: the count rides in the
    /// envelope's numeric slot.
    pub fn count_rows_result(vendor: Result<u64, String>) -> (r: CommandResult)
        ensures
            vendor matches Ok(n) ==> r == Ok::<i64, String>(n as i64),
            vendor is Err ==> (r is Err && r->Err_0@ == "Error counting rows: "@
                + vendor->Err_0@),
    {
        match vendor {
            Ok(n) => Ok(#[verifier::truncate] (n as i64)),
            Err(e) => Err(prefixed_error("Error counting rows: ", e.as_str())),
        }
    }

    /// The envelope for any other vendor outcome: a success keeps its
    /// code, a failure carries the handler's message prefix followed by
    /// the vendor's own text.
    pub fn vendor_result(prefix: &str, vendor: Result<i64, String>) -> (r: CommandResult)
        ensures
            vendor matches Ok(code) ==> r == Ok::<i64, String>(code),
            vendor is Err ==> (r is Err && r->Err_0@ == prefix@ + vendor->Err_0@),
    {
        match vendor {
            Ok(code) => Ok(code),
            Err(e) => Err(prefixed_error(prefix, e.as_str())),
        }
    }

    /// Drains both registries for the quit command.  Every connection and
    /// table is dropped; neither counter moves back, so handles stay
    /// unique even across a drain.
    pub fn shutdown(&mut self)
        requires
            old(self).wf(),
        ensures
            final(self).wf(),
            final(self).conns_view().next == old(self).conns_view().next,
            final(self).conns_view().map =~= Map::<i64, C>::empty(),
            final(self).tables_view().next == old(self).tables_view().next,
            final(self).tables_view().map =~= Map::<(i64, i64), TableSlot<T>>::empty(),
    {
        self.connections.clear();
        self.tables.clear();
    }
}

/// Whether a vendor failure text indicates a missing table: it carries
/// the vendor's "not found" marker in either its display or its debug
/// rendering.
pub open spec fn spec_indicates_missing(message: Seq<char>) -> bool {
    spec_contains_seq(message, "not found"@) || spec_contains_seq(message, "NotFound"@)
}

/// Tests a vendor failure text for the missing-table marker.
pub fn message_indicates_missing(message: &String) -> (r: bool)
    ensures
        r == spec_indicates_missing(message@),
{
    let chars = string_chars(message.as_str());
    let lower = string_chars("not found");
    let camel = string_chars("NotFound");
    contains_chars(&chars, &lower) || contains_chars(&chars, &camel)
}

} // verus!
