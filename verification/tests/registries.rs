//! Registry behaviour through the engine core: monotone handles,
//! cross-connection isolation, and the release cascade.

use lance_sync_client::engine::EngineCore;

#[test]
fn monotone_connection_handles() {
    let mut core: EngineCore<String, u32> = EngineCore::new();
    let h1 = core.register_connection("db-one".to_string());
    let h2 = core.register_connection("db-two".to_string());
    assert_eq!(h1, 1);
    assert_eq!(h2, 2);
    assert_eq!(core.disconnect(h1), Ok(0));
    let h3 = core.register_connection("db-three".to_string());
    assert_eq!(h3, 3);
    assert!(h1 < h2 && h2 < h3);
}

#[test]
fn monotone_table_handles_across_drops() {
    let mut core: EngineCore<String, u32> = EngineCore::new();
    let conn = core.register_connection("db".to_string());
    let t1 = core.register_table(conn, "t".to_string(), 10);
    core.drop_table_begin(conn, &"t".to_string());
    let t2 = core.register_table(conn, "t".to_string(), 20);
    assert_eq!(t1, 1);
    assert_eq!(t2, 2);
    assert!(t1 < t2);
}

#[test]
fn cross_connection_isolation() {
    let mut core: EngineCore<String, u32> = EngineCore::new();
    let conn_a = core.register_connection("a".to_string());
    let conn_b = core.register_connection("b".to_string());
    let th_a = core.register_table(conn_a, "t".to_string(), 1);
    let th_b = core.register_table(conn_b, "t".to_string(), 2);
    assert_ne!(th_a, th_b);
    assert_eq!(core.get_table(conn_a, th_a), Some(&1));
    assert_eq!(core.get_table(conn_b, th_b), Some(&2));
    // the handle obtained under A misses under B
    assert_eq!(core.get_table(conn_b, th_a), None);
    let reply = EngineCore::<String, u32>::table_not_found();
    assert_eq!(reply, Err("Table not found".to_string()));
}

#[test]
fn release_cascade_on_disconnect() {
    let mut core: EngineCore<String, u32> = EngineCore::new();
    let conn_a = core.register_connection("a".to_string());
    let conn_b = core.register_connection("b".to_string());
    let th_a1 = core.register_table(conn_a, "one".to_string(), 1);
    let th_a2 = core.register_table(conn_a, "two".to_string(), 2);
    let th_b = core.register_table(conn_b, "one".to_string(), 3);
    assert_eq!(core.disconnect(conn_a), Ok(0));
    assert_eq!(core.get_table(conn_a, th_a1), None);
    assert_eq!(core.get_table(conn_a, th_a2), None);
    assert_eq!(core.get_connection(conn_a), None);
    // the other connection keeps its tables
    assert_eq!(core.get_table(conn_b, th_b), Some(&3));
    assert_eq!(core.get_connection(conn_b), Some(&"b".to_string()));
}

#[test]
fn drop_table_invalidates_cached_handles_by_name() {
    let mut core: EngineCore<String, u32> = EngineCore::new();
    let conn = core.register_connection("db".to_string());
    let th1 = core.register_table(conn, "t".to_string(), 1);
    let th2 = core.register_table(conn, "t".to_string(), 2);
    let th_other = core.register_table(conn, "u".to_string(), 3);
    core.drop_table_begin(conn, &"t".to_string());
    assert_eq!(core.get_table(conn, th1), None);
    assert_eq!(core.get_table(conn, th2), None);
    assert_eq!(core.get_table(conn, th_other), Some(&3));
}

#[test]
fn drop_table_result_respects_ignore_missing() {
    // first drop succeeds, second is missing but ignored: both reply 0
    let first = EngineCore::<String, u32>::drop_table_result(false, Ok(()));
    let second = EngineCore::<String, u32>::drop_table_result(
        true,
        Err("table t was not found".to_string()),
    );
    assert_eq!(first, Ok(0));
    assert_eq!(second, Ok(0));
    // the vendor's debug rendering is recognised too
    let debug_style = EngineCore::<String, u32>::drop_table_result(
        true,
        Err("TableNotFound { name: \"t\" }".to_string()),
    );
    assert_eq!(debug_style, Ok(0));
    // only a missing table is suppressed: any other failure is reported
    let unrelated = EngineCore::<String, u32>::drop_table_result(
        true,
        Err("boom".to_string()),
    );
    assert_eq!(unrelated, Err("Error dropping table: boom".to_string()));
    let failing = EngineCore::<String, u32>::drop_table_result(
        false,
        Err("boom".to_string()),
    );
    assert_eq!(failing, Err("Error dropping table: boom".to_string()));
    let not_ignored = EngineCore::<String, u32>::drop_table_result(
        false,
        Err("table t was not found".to_string()),
    );
    assert_eq!(not_ignored, Err("Error dropping table: table t was not found".to_string()));
}

#[test]
fn close_table_releases_one_entry() {
    let mut core: EngineCore<String, u32> = EngineCore::new();
    let conn = core.register_connection("db".to_string());
    let th1 = core.register_table(conn, "t".to_string(), 1);
    let th2 = core.register_table(conn, "t".to_string(), 2);
    assert_eq!(core.close_table(conn, th1), Ok(0));
    assert_eq!(core.get_table(conn, th1), None);
    assert_eq!(core.get_table(conn, th2), Some(&2));
    // closing again is still a success
    assert_eq!(core.close_table(conn, th1), Ok(0));
}

#[test]
fn disconnect_unknown_handle_reports_not_found() {
    let mut core: EngineCore<String, u32> = EngineCore::new();
    assert_eq!(core.disconnect(7), Err("Connection not found".to_string()));
    let c = core.register_connection("db".to_string());
    assert_eq!(core.disconnect(c), Ok(0));
    assert_eq!(core.disconnect(c), Err("Connection not found".to_string()));
}

#[test]
fn vendor_envelopes_carry_prefixed_messages() {
    let connect_err =
        EngineCore::<String, u32>::connect_error(&"timeout".to_string());
    assert_eq!(connect_err, Err("Error acquiring connection: timeout".to_string()));
    let open_err = EngineCore::<String, u32>::open_table_error(&"missing".to_string());
    assert_eq!(open_err, Err("Error opening table: missing".to_string()));
    let count_ok = EngineCore::<String, u32>::count_rows_result(Ok(1000));
    assert_eq!(count_ok, Ok(1000));
    let count_err =
        EngineCore::<String, u32>::count_rows_result(Err("bad filter".to_string()));
    assert_eq!(count_err, Err("Error counting rows: bad filter".to_string()));
    let op = EngineCore::<String, u32>::vendor_result(
        "Error deleting rows: ",
        Err("oops".to_string()),
    );
    assert_eq!(op, Err("Error deleting rows: oops".to_string()));
}

#[test]
fn shutdown_drains_registries_without_reusing_handles() {
    let mut core: EngineCore<String, u32> = EngineCore::new();
    let c1 = core.register_connection("a".to_string());
    core.register_table(c1, "t".to_string(), 1);
    core.shutdown();
    assert_eq!(core.get_connection(c1), None);
    let c2 = core.register_connection("b".to_string());
    assert!(c2 > c1);
}
