//! Batch slicing and stream cancellation.

use std::sync::Arc;

use arrow_array::{Int32Array, RecordBatch};
use arrow_schema::{DataType, Field, Schema};

use lance_sync_client::codec::{bytes_to_batch, IpcBatch};
use lance_sync_client::slicing::{encode_batch_slices, slice_plan, BatchStream};

fn five_row_batch() -> IpcBatch {
    let schema = Arc::new(Schema::new(vec![Field::new("id", DataType::Int32, false)]));
    IpcBatch {
        inner: RecordBatch::try_new(schema, vec![Arc::new(Int32Array::from_iter_values(0..5))])
            .unwrap(),
    }
}

#[test]
fn slice_plan_cuts_five_rows_into_two_two_one() {
    assert_eq!(slice_plan(5, 2), vec![(0, 2), (2, 2), (4, 1)]);
}

#[test]
fn slice_plan_without_bound_keeps_the_batch_whole() {
    assert_eq!(slice_plan(1000, 0), vec![(0, 1000)]);
    assert_eq!(slice_plan(3, 10), vec![(0, 3)]);
    assert_eq!(slice_plan(0, 4), vec![(0, 0)]);
}

#[test]
fn slice_plan_exact_multiple_has_no_trailing_slice() {
    assert_eq!(slice_plan(6, 2), vec![(0, 2), (2, 2), (4, 2)]);
    assert_eq!(slice_plan(4, 4), vec![(0, 4)]);
}

#[test]
fn encoded_slices_carry_two_two_one_rows() {
    let batch = five_row_batch();
    let buffers = encode_batch_slices(&batch, 2).unwrap();
    assert_eq!(buffers.len(), 3);
    let row_counts: Vec<usize> = buffers
        .iter()
        .map(|buf| {
            let decoded = bytes_to_batch(buf).unwrap();
            assert_eq!(decoded.len(), 1);
            decoded.into_iter().next().unwrap().unwrap().inner.num_rows()
        })
        .collect();
    assert_eq!(row_counts, vec![2, 2, 1]);
}

#[test]
fn encoded_slices_without_bound_stay_whole() {
    let batch = five_row_batch();
    let buffers = encode_batch_slices(&batch, 0).unwrap();
    assert_eq!(buffers.len(), 1);
    let decoded = bytes_to_batch(&buffers[0]).unwrap();
    assert_eq!(decoded.len(), 1);
    assert_eq!(decoded.into_iter().next().unwrap().unwrap().inner.num_rows(), 5);
}

#[test]
fn stream_stops_after_first_cancel() {
    // a query expected to yield ten slices is cancelled on the first one
    let mut stream = BatchStream::new(10);
    assert!(stream.should_emit());
    stream.note_delivery(false);
    assert!(!stream.should_emit());
    assert!(stream.cancelled());
    assert_eq!(stream.emitted(), 1);
}

#[test]
fn stream_runs_to_completion_without_cancel() {
    let mut stream = BatchStream::new(3);
    let mut deliveries: usize = 0;
    while stream.should_emit() {
        stream.note_delivery(true);
        deliveries += 1;
    }
    assert_eq!(deliveries, 3);
    assert!(!stream.cancelled());
    assert_eq!(stream.emitted(), 3);
}

#[test]
fn stream_cancel_midway_freezes_the_count() {
    let mut stream = BatchStream::new(4);
    stream.note_delivery(true);
    stream.note_delivery(false);
    assert!(!stream.should_emit());
    assert_eq!(stream.emitted(), 2);
}
