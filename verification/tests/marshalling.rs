//! Argument marshalling, enum codes, vector decoding, lifecycle, and the
//! small stores.

use lance_sync_client::blobs::BlobHandler;
use lance_sync_client::envelope::{completion_message, final_reply};
use lance_sync_client::enums::{BadVectorHandling, IndexType, MetricType, ScalarIndexType, WriteMode};
use lance_sync_client::lifecycle::{is_already_setup, EngineLifecycle, SetupAction, StartRetries};
use lance_sync_client::requests::{
    build_query_request, build_vector_query_request, distance_bound_from_bits, fts_base_tokenizer,
    index_stats_reply, optimize_plan, pair_options, split_update_expression, strip_file_scheme,
    OptimizePlan,
};
use lance_sync_client::envelope::{ReplyPhase, ReplyTracker};
use lance_sync_client::string_lists::{add_string_list, StringListHandler};
use lance_sync_client::vector_input::VectorDataType;

#[test]
fn pair_options_even_and_odd() {
    let flat = vec![
        "region".to_string(),
        "eu".to_string(),
        "allow_http".to_string(),
        "true".to_string(),
    ];
    let pairs = pair_options(&flat).unwrap();
    assert_eq!(pairs.len(), 2);
    assert_eq!(pairs[0], ("region".to_string(), "eu".to_string()));
    assert_eq!(pairs[1], ("allow_http".to_string(), "true".to_string()));
    let odd = vec!["just-a-key".to_string()];
    assert!(pair_options(&odd).is_err());
    assert_eq!(pair_options(&Vec::new()).unwrap().len(), 0);
}

#[test]
fn update_expressions_split_at_one_equals() {
    let ok = split_update_expression(&b"score=score+1".to_vec()).unwrap();
    assert_eq!(ok.0, b"score".to_vec());
    assert_eq!(ok.1, b"score+1".to_vec());
    assert!(split_update_expression(&b"no-equals-here".to_vec()).is_none());
    assert!(split_update_expression(&b"a=b=c".to_vec()).is_none());
    let empty_parts = split_update_expression(&b"=".to_vec()).unwrap();
    assert_eq!(empty_parts.0, Vec::<u8>::new());
    assert_eq!(empty_parts.1, Vec::<u8>::new());
}

#[test]
fn file_scheme_is_stripped_from_uris() {
    assert_eq!(strip_file_scheme(&b"file:///tmp/db".to_vec()), b"/tmp/db".to_vec());
    assert_eq!(strip_file_scheme(&b"/tmp/db".to_vec()), b"/tmp/db".to_vec());
    assert_eq!(strip_file_scheme(&b"file://file://x".to_vec()), b"x".to_vec());
    assert_eq!(strip_file_scheme(&b"".to_vec()), Vec::<u8>::new());
}

#[test]
fn nan_distance_bounds_mean_no_bound() {
    assert_eq!(distance_bound_from_bits(f32::NAN.to_bits()), None);
    assert_eq!(distance_bound_from_bits(1.5f32.to_bits()), Some(1.5f32.to_bits()));
    assert_eq!(distance_bound_from_bits(0.0f32.to_bits()), Some(0.0f32.to_bits()));
    assert_eq!(
        distance_bound_from_bits(f32::INFINITY.to_bits()),
        Some(f32::INFINITY.to_bits())
    );
}

#[test]
fn query_builders_map_zero_to_none() {
    let q = build_query_request(0, None, false, None, None, 0);
    assert_eq!(q.limit, None);
    let q = build_query_request(5, Some("id > 3".to_string()), true, None, None, 2);
    assert_eq!(q.limit, Some(5));
    assert_eq!(q.where_clause.as_deref(), Some("id > 3"));
    assert!(q.with_row_id);
    assert_eq!(q.batch_size, 2);

    let v = build_vector_query_request(
        5,
        None,
        false,
        None,
        2,
        VectorDataType::F32(vec![1.0f32.to_bits(); 128]),
        MetricType::L2,
        0,
        0,
        f32::NAN.to_bits(),
        2.0f32.to_bits(),
    );
    assert_eq!(v.base.limit, Some(5));
    assert_eq!(v.base.full_text_search, None);
    assert_eq!(v.metric, MetricType::L2);
    assert_eq!(v.distance_range_min, None);
    assert_eq!(v.distance_range_max, Some(2.0f32.to_bits()));
}

#[test]
fn tokenizer_defaulting() {
    assert_eq!(fts_base_tokenizer("".to_string()), None);
    assert_eq!(fts_base_tokenizer("default".to_string()), None);
    assert_eq!(
        fts_base_tokenizer("whitespace".to_string()),
        Some("whitespace".to_string())
    );
}

#[test]
fn optimize_plan_decision() {
    assert_eq!(optimize_plan(-1, false), OptimizePlan::Full);
    assert_eq!(
        optimize_plan(0, false),
        OptimizePlan::Staged { prune_older_than_seconds: Some(0), delete_unverified: false }
    );
    assert_eq!(
        optimize_plan(3600, true),
        OptimizePlan::Staged { prune_older_than_seconds: Some(3600), delete_unverified: true }
    );
    assert_eq!(
        optimize_plan(-5, true),
        OptimizePlan::Staged { prune_older_than_seconds: None, delete_unverified: true }
    );
}

#[test]
fn index_stats_reply_shapes() {
    assert_eq!(index_stats_reply(None), (0, 0, 0, 0, 0));
    assert_eq!(
        index_stats_reply(Some((IndexType::IvfPq, Some(MetricType::Cosine), 1000, Some(4), 10))),
        (6, 2, 1000, 4, 10)
    );
    assert_eq!(
        index_stats_reply(Some((IndexType::BTree, None, 7, None, 0))),
        (0, 0, 7, 0, 0)
    );
}

#[test]
fn enum_codes_round_trip() {
    for code in 0..=4u32 {
        let m = MetricType::from_code(code).unwrap();
        assert_eq!(m.code(), code);
    }
    assert_eq!(MetricType::from_code(5), None);
    assert_eq!(MetricType::Unspecified.effective(), MetricType::L2);
    assert_eq!(MetricType::Dot.effective(), MetricType::Dot);

    for code in 0..=6u32 {
        let t = IndexType::from_code(code).unwrap();
        assert_eq!(t.code(), code);
    }
    assert_eq!(IndexType::from_code(7), None);

    for code in 0..=2u32 {
        let t = ScalarIndexType::from_code(code).unwrap();
        assert_eq!(t.code(), code);
    }
    assert_eq!(ScalarIndexType::from_code(3), None);

    assert_eq!(WriteMode::from_code(1), Some(WriteMode::Append));
    assert_eq!(WriteMode::from_code(2), Some(WriteMode::Overwrite));
    assert_eq!(WriteMode::from_code(0), None);
    assert_eq!(WriteMode::from_code(3), None);
    assert_eq!(WriteMode::Append.code(), 1);

    assert_eq!(BadVectorHandling::from_code(1), Some(BadVectorHandling::Reject));
    assert_eq!(BadVectorHandling::from_code(2), Some(BadVectorHandling::Skip));
    assert_eq!(BadVectorHandling::from_code(3), Some(BadVectorHandling::Fill));
    assert_eq!(BadVectorHandling::from_code(0), None);
}

#[test]
fn vector_blob_decoding() {
    // two f32 elements, little endian
    let blob: Vec<u8> = vec![0, 0, 128, 63, 0, 0, 0, 64];  // 1.0f32, 2.0f32
    match VectorDataType::from_blob(2, &blob, 2).unwrap() {
        VectorDataType::F32(words) => {
            assert_eq!(words, vec![1.0f32.to_bits(), 2.0f32.to_bits()]);
        }
        _ => panic!("expected 32-bit variant"),
    }
    // a short blob is rejected
    assert!(VectorDataType::from_blob(2, &blob, 3).is_err());
    // a longer blob is accepted and only the first elements are decoded
    match VectorDataType::from_blob(2, &blob, 1).unwrap() {
        VectorDataType::F32(words) => assert_eq!(words, vec![1.0f32.to_bits()]),
        _ => panic!("expected 32-bit variant"),
    }
    // unknown discriminator is rejected
    assert!(VectorDataType::from_blob(9, &blob, 2).is_err());
    // f16: two elements from four bytes
    let blob16: Vec<u8> = vec![0x00, 0x3c, 0x00, 0x40];
    match VectorDataType::from_blob(1, &blob16, 2).unwrap() {
        VectorDataType::F16(words) => assert_eq!(words, vec![0x3c00, 0x4000]),
        _ => panic!("expected 16-bit variant"),
    }
    // f64: one element from eight bytes
    let blob64: Vec<u8> = 1.0f64.to_le_bytes().to_vec();
    match VectorDataType::from_blob(3, &blob64, 1).unwrap() {
        VectorDataType::F64(words) => assert_eq!(words, vec![1.0f64.to_bits()]),
        _ => panic!("expected 64-bit variant"),
    }
    // column input carries the blob through
    match VectorDataType::from_blob(4, &blob, 0).unwrap() {
        VectorDataType::ArrowIpc(bytes) => assert_eq!(bytes, blob),
        _ => panic!("expected column variant"),
    }
}

#[test]
fn implicit_start_is_idempotent() {
    let mut lifecycle = EngineLifecycle::new();
    assert!(!is_already_setup(&lifecycle));
    assert_eq!(lifecycle.setup(), SetupAction::StartWorker);
    assert!(is_already_setup(&lifecycle));
    // calling setup twice is a no-op
    assert_eq!(lifecycle.setup(), SetupAction::AlreadyRunning);
    assert_eq!(lifecycle.setup(), SetupAction::AlreadyRunning);
    assert!(lifecycle.running());
}

#[test]
fn start_retries_give_up_after_the_bound() {
    let mut retries = StartRetries::new();
    let mut attempts: usize = 0;
    loop {
        let give_up = retries.note_attempt();
        attempts += 1;
        if give_up {
            break;
        }
        assert!(attempts <= 11);
    }
    assert_eq!(attempts, 11);
}

#[test]
fn envelope_round_trip() {
    assert_eq!(completion_message(Ok(42)), (42, String::new()));
    assert_eq!(completion_message(Err("boom".to_string())), (-1, "boom".to_string()));
    assert_eq!(final_reply(42, String::new()), Ok(42));
    assert_eq!(final_reply(-1, "boom".to_string()), Err("boom".to_string()));
    assert_eq!(final_reply(0, "ignored".to_string()), Ok(0));
}

#[test]
fn blob_store_add_read_free() {
    let mut blobs = BlobHandler::new();
    let h1 = blobs.add_blob(vec![1, 2, 3]);
    let h2 = blobs.add_blob(vec![]);
    assert_ne!(h1, h2);
    assert_eq!(blobs.blob_len(h1), Some(3));
    assert_eq!(blobs.blob_len(h2), Some(0));
    let shared = blobs.get_blob_arc(h1).unwrap();
    assert_eq!(*shared, vec![1, 2, 3]);
    blobs.free_if_exists(h1);
    assert_eq!(blobs.blob_len(h1), None);
    assert_eq!(blobs.get_blob_arc(h1), None);
    // freeing again is a silent no-op
    blobs.free_if_exists(h1);
    assert_eq!(blobs.blob_len(h2), Some(0));
}

#[test]
fn string_list_store_add_read_free() {
    let mut lists = StringListHandler::new();
    let id = add_string_list(&mut lists, vec!["a".to_string(), "b".to_string()]).unwrap();
    // string-list ids count up from 0
    assert_eq!(id, 0);
    assert_eq!(
        lists.get_string_list(id),
        Some(&vec!["a".to_string(), "b".to_string()])
    );
    let id2 = lists
        .add_string_list(vec!["c".to_string()])
        .unwrap();
    assert_eq!(id2, 1);
    assert_ne!(id, id2);
    lists.free_string_list(id);
    assert_eq!(lists.get_string_list(id), None);
    assert_eq!(lists.get_string_list(id2), Some(&vec!["c".to_string()]));
}

#[test]
fn reply_tracker_walks_the_protocol() {
    let mut tracker = ReplyTracker::new();
    assert_eq!(tracker.current(), ReplyPhase::Pending);
    tracker.complete();
    assert_eq!(tracker.current(), ReplyPhase::Completed);
    tracker.reply();
    // the protocol ends here: a replied command admits no further event
    assert_eq!(tracker.current(), ReplyPhase::Replied);
}
