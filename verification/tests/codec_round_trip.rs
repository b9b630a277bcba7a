//! Arrow IPC codec round trips through the public codec functions.

use std::sync::Arc;

use arrow_array::types::Float32Type;
use arrow_array::{FixedSizeListArray, Int32Array, RecordBatch};
use arrow_schema::{DataType, Field, Schema};

use lance_sync_client::batches::BatchHandler;
use lance_sync_client::codec::{batch_to_bytes, bytes_to_batch, bytes_to_schema, schema_to_bytes, IpcBatch};

fn get_schema() -> Arc<Schema> {
    Arc::new(Schema::new(vec![
        Field::new("id", DataType::Int32, false),
        Field::new(
            "vector",
            DataType::FixedSizeList(Arc::new(Field::new("item", DataType::Float32, true)), 128),
            true,
        ),
    ]))
}

fn create_some_records() -> Vec<RecordBatch> {
    const TOTAL: usize = 1000;
    const DIM: usize = 128;

    let schema = get_schema();
    vec![RecordBatch::try_new(
        schema.clone(),
        vec![
            Arc::new(Int32Array::from_iter_values(0..TOTAL as i32)),
            Arc::new(FixedSizeListArray::from_iter_primitive::<Float32Type, _, _>(
                (0..TOTAL).map(|_| Some(vec![Some(1.0); DIM])),
                DIM as i32,
            )),
        ],
    )
    .unwrap()]
}

#[test]
fn test_create_some_records() {
    let records = create_some_records();
    let n_batches = records.len();

    let mut handler = BatchHandler::new();
    let stored: Vec<Result<IpcBatch, String>> =
        records.iter().map(|b| Ok(IpcBatch { inner: b.clone() })).collect();
    let handle = handler.add_batch(stored);
    let buf = handler.batch_as_bytes(handle).unwrap();

    let batches: Vec<RecordBatch> = bytes_to_batch(&buf)
        .unwrap()
        .into_iter()
        .map(|item| item.unwrap().inner)
        .collect();
    assert_eq!(n_batches, batches.len());
    batches.iter().zip(records.iter()).for_each(|(b1, b2)| {
        assert_eq!(b1.num_rows(), b2.num_rows());
        assert_eq!(b1.num_columns(), b2.num_columns());
        b1.columns().iter().zip(b2.columns()).for_each(|(c1, c2)| {
            assert_eq!(c1.len(), c2.len());
            assert_eq!(c1.data_type(), c2.data_type());
            assert_eq!(c1.null_count(), c2.null_count());
            assert_eq!(c1.offset(), c2.offset());
        });
    });
}

#[test]
fn round_trip_schema() {
    let schema = get_schema();
    let bytes = schema_to_bytes(schema.as_ref()).unwrap();
    let back = bytes_to_schema(&bytes).unwrap();
    assert_eq!(*schema.as_ref(), back);
}

#[test]
fn dictionary_of_dictionary_schema_is_rejected() {
    // the IPC writer refuses this schema, and the codec reports it
    let nested = DataType::Dictionary(
        Box::new(DataType::Int32),
        Box::new(DataType::Dictionary(Box::new(DataType::Int32), Box::new(DataType::Utf8))),
    );
    let schema = Schema::new(vec![Field::new("labels", nested, true)]);
    assert!(schema_to_bytes(&schema).is_err());
}

#[test]
fn mixed_schema_sets_are_rejected() {
    let records = create_some_records();
    let other_schema = Arc::new(Schema::new(vec![Field::new("count", DataType::Int32, false)]));
    let other = RecordBatch::try_new(
        other_schema,
        vec![Arc::new(Int32Array::from_iter_values(0..3))],
    )
    .unwrap();
    let mut handler = BatchHandler::new();
    let stored: Vec<Result<IpcBatch, String>> = vec![
        Ok(IpcBatch { inner: records[0].clone() }),
        Ok(IpcBatch { inner: other }),
    ];
    let handle = handler.add_batch(stored);
    assert_eq!(
        handler.batch_as_bytes(handle),
        Err("Record batch set holds mixed schemas".to_string())
    );
}

#[test]
fn round_trip_single_batch() {
    let records = create_some_records();
    let batch = IpcBatch { inner: records[0].clone() };
    let bytes = batch_to_bytes(&batch).unwrap();
    let decoded = bytes_to_batch(&bytes).unwrap();
    assert_eq!(decoded.len(), 1);
    let back = decoded.into_iter().next().unwrap().unwrap().inner;
    assert_eq!(back.num_rows(), records[0].num_rows());
    assert_eq!(back.num_columns(), records[0].num_columns());
    assert_eq!(back, records[0]);
}

#[test]
fn malformed_ipc_bytes_are_rejected() {
    let junk: Vec<u8> = vec![1, 2, 3, 4, 5, 6, 7, 8];
    assert!(bytes_to_schema(&junk).is_err());
    assert!(bytes_to_batch(&junk).is_err());
}

#[test]
fn batch_store_take_and_free() {
    let records = create_some_records();
    let mut handler = BatchHandler::new();
    let stored: Vec<Result<IpcBatch, String>> =
        records.iter().map(|b| Ok(IpcBatch { inner: b.clone() })).collect();
    let handle = handler.add_batch(stored);
    assert!(handler.get_batch(handle).is_some());
    let taken = handler.take_batch(handle);
    assert_eq!(taken.map(|v| v.len()), Some(1));
    assert!(handler.get_batch(handle).is_none());
    assert!(handler.take_batch(handle).is_none());
    assert!(handler.batch_as_bytes(handle).is_err());
}

#[test]
fn batch_store_reports_stored_decode_failures() {
    let mut handler = BatchHandler::new();
    let records = create_some_records();
    let stored: Vec<Result<IpcBatch, String>> = vec![
        Ok(IpcBatch { inner: records[0].clone() }),
        Err("decode failed mid-file".to_string()),
    ];
    let handle = handler.add_batch(stored);
    // the first stored decode failure is forwarded verbatim
    assert_eq!(handler.batch_as_bytes(handle), Err("decode failed mid-file".to_string()));

    let empty = handler.add_batch(Vec::new());
    assert_eq!(
        handler.batch_as_bytes(empty),
        Err("Record batch set is empty".to_string())
    );
}

#[test]
fn multi_batch_file_round_trips() {
    let records = create_some_records();
    let half = records[0].slice(0, 500);
    let rest = records[0].slice(500, 500);
    let mut handler = BatchHandler::new();
    let stored: Vec<Result<IpcBatch, String>> =
        vec![Ok(IpcBatch { inner: half }), Ok(IpcBatch { inner: rest })];
    let handle = handler.add_batch(stored);
    let buf = handler.batch_as_bytes(handle).unwrap();
    let decoded = bytes_to_batch(&buf).unwrap();
    assert_eq!(decoded.len(), 2);
    for item in decoded {
        let batch = item.unwrap().inner;
        assert_eq!(batch.num_rows(), 500);
        assert_eq!(batch.num_columns(), 2);
    }
}
