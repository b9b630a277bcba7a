//! The Arrow IPC codec boundary.
//!
//! Every structured value that crosses the C boundary travels as a whole
//! Arrow IPC *file* (never the streaming form, which shifts between Arrow
//! versions): a schema alone, or a schema with one record batch.  The
//! encoding itself is done by the `arrow-ipc` crate behind the trusted
//! wrappers in this module; their contracts name the encodings and state
//! the round trips the Arrow reader and writer guarantee, and the public
//! codec functions are verified against those contracts.

use vstd::prelude::*;

verus! {

#[verifier::external_type_specification]
#[verifier::external_body]
/// Declares Arrow's schema type so it can cross verified signatures.
pub struct ExSchema(arrow_schema::Schema);

/// One Arrow record batch, carried opaquely through the verified engine.
///
/// Arrow's own batch type cannot be named in verified signatures (its
/// indexing impl speaks of the undeclared `Array` trait), so the engine
/// holds it in this wrapper.  The host layer reaches the raw batch through
/// the public field; the verified engine itself never looks inside.
#[verifier::external_body]
pub struct IpcBatch {
    /// The raw Arrow batch.
    pub inner: arrow_array::RecordBatch,
}

#[verifier::external_type_specification]
#[verifier::external_body]
/// Declares Arrow's error type so wrappers can hand it back.
pub struct ExArrowError(arrow_schema::ArrowError);

/// The bytes of the Arrow IPC file that carries the schema and nothing
/// else.
pub uninterp spec fn schema_ipc(s: arrow_schema::Schema) -> Seq<u8>;

/// The bytes of the Arrow IPC file that carries the batch (under its own
/// schema) as its single record batch.
pub uninterp spec fn batch_file_ipc(b: IpcBatch) -> Seq<u8>;

/// How many rows a record batch holds.
pub uninterp spec fn batch_rows(b: IpcBatch) -> nat;

/// How many columns a record batch holds.
pub uninterp spec fn batch_cols(b: IpcBatch) -> nat;

/// The text of an Arrow error, as the engine reports it to the host.
pub uninterp spec fn arrow_error_text(e: arrow_schema::ArrowError) -> Seq<char>;

/// Whether the IPC writer accepts the batch: encoding is a function of
/// the batch value alone, so its success is too.
pub uninterp spec fn batch_encodes(b: IpcBatch) -> bool;

/// Whether the IPC writer accepts the batch set (under the first batch's
/// schema); success is a function of the sequence alone.
pub uninterp spec fn batch_set_encodes(batches: Seq<IpcBatch>) -> bool;

/// Whether the IPC reader accepts the bytes as a file with a schema
/// header; parsing is a function of the bytes alone.
pub uninterp spec fn schema_decodes(bytes: Seq<u8>) -> bool;

/// Whether the IPC reader accepts the bytes as a file whose batches can
/// be listed; parsing is a function of the bytes alone.
pub uninterp spec fn batch_file_decodes(bytes: Seq<u8>) -> bool;

/// The `length` rows of the batch starting at row `offset`, with its
/// schema and columns.
pub uninterp spec fn slice_of(b: IpcBatch, offset: int, length: int) -> IpcBatch;

/// Whether the IPC writer accepts the schema: it rejects exactly the
/// schemas with a dictionary-of-dictionary field, a function of the
/// schema value alone.
pub uninterp spec fn schema_encodes(s: arrow_schema::Schema) -> bool;

/// The identity of a batch's schema: two batches get the same key
/// exactly when their schemas are equal.
pub uninterp spec fn batch_schema_key(b: IpcBatch) -> int;

/// The shape of a batch's columns: their element types, lengths and null
/// counts.  The IPC round trip preserves it.  (A batch's column offsets
/// are not part of the shape: the reader rebuilds columns at offset
/// zero.)
pub uninterp spec fn batch_shape(b: IpcBatch) -> int;

/// Relies on arrow_ipc::writer::FileWriter: try_new writes the IPC file
/// header carrying the schema and finish writes the footer; no batch is
/// written in between.  try_new rejects a schema with a
/// dictionary-of-dictionary field; into a Vec nothing else can fail.
#[verifier::external_body]
pub(crate) fn ipc_write_schema(schema: &arrow_schema::Schema) -> (r: Result<
    Vec<u8>,
    arrow_schema::ArrowError,
>)
    ensures
        r is Ok <==> schema_encodes(*schema),
        r is Ok ==> r.unwrap()@ == schema_ipc(*schema),
{
    let mut buf: Vec<u8> = Vec::new();
    {
        let mut fw = arrow_ipc::writer::FileWriter::try_new(&mut buf, schema)?;
        fw.finish()?;
    }
    Ok(buf)
}

/// Relies on arrow_ipc::reader::FileReader: try_new parses an IPC file's
/// header and footer, schema() returns the schema the file was written
/// with, and a malformed file is rejected as an error.
#[verifier::external_body]
pub(crate) fn ipc_read_schema(bytes: &Vec<u8>) -> (r: Result<
    arrow_schema::Schema,
    arrow_schema::ArrowError,
>)
    ensures
        r is Ok <==> schema_decodes(bytes@),
        forall|s: arrow_schema::Schema|
            bytes@ == schema_ipc(s) ==> r is Ok && r.unwrap() == s,
{
    let reader = arrow_ipc::reader::FileReader::try_new(std::io::Cursor::new(bytes.as_slice()), None)?;
    Ok(reader.schema().as_ref().clone())
}

/// Relies on arrow_ipc::writer::FileWriter: try_new with the batch's own
/// schema, one write, and finish produce the IPC file holding exactly
/// that batch.
#[verifier::external_body]
pub(crate) fn ipc_write_batch(batch: &IpcBatch) -> (r: Result<
    Vec<u8>,
    arrow_schema::ArrowError,
>)
    ensures
        r is Ok <==> batch_encodes(*batch),
        r is Ok ==> r.unwrap()@ == batch_file_ipc(*batch),
{
    let mut buf: Vec<u8> = Vec::new();
    {
        let schema = batch.inner.schema();
        let mut fw = arrow_ipc::writer::FileWriter::try_new(&mut buf, schema.as_ref())?;
        fw.write(&batch.inner)?;
        fw.finish()?;
    }
    Ok(buf)
}

/// Relies on arrow_ipc::reader::FileReader: iterating the reader yields
/// the record batches of the file in order, each as its own result.  A
/// file written from one batch, or from a set of batches that share one
/// schema, reads back batch for batch with the written row and column
/// counts and column shapes.  (The reader interprets every batch with
/// the file's schema, so nothing is claimed of a mixed-schema set.)
#[verifier::external_body]
pub(crate) fn ipc_read_batches(bytes: &Vec<u8>) -> (r: Result<
    Vec<Result<IpcBatch, arrow_schema::ArrowError>>,
    arrow_schema::ArrowError,
>)
    ensures
        r is Ok <==> batch_file_decodes(bytes@),
        forall|b: IpcBatch|
            bytes@ == batch_file_ipc(b) ==> r is Ok && r.unwrap()@.len() == 1
                && r.unwrap()@[0] is Ok && batch_rows(r.unwrap()@[0].unwrap()) == batch_rows(b)
                && batch_cols(r.unwrap()@[0].unwrap()) == batch_cols(b) && batch_shape(
                r.unwrap()@[0].unwrap(),
            ) == batch_shape(b),
        forall|bs: Seq<IpcBatch>|
            bytes@ == batches_file_ipc(bs) && bs.len() >= 1 && (forall|i: int|
                0 <= i < bs.len() ==> batch_schema_key(#[trigger] bs[i]) == batch_schema_key(
                    bs[0],
                )) ==> r is Ok && r.unwrap()@.len() == bs.len() && (forall|i: int|
                0 <= i < bs.len() ==> (#[trigger] r.unwrap()@[i]) is Ok && batch_rows(
                    r.unwrap()@[i].unwrap(),
                ) == batch_rows(bs[i]) && batch_cols(r.unwrap()@[i].unwrap()) == batch_cols(
                    bs[i],
                ) && batch_shape(r.unwrap()@[i].unwrap()) == batch_shape(bs[i])),
{
    let reader = arrow_ipc::reader::FileReader::try_new(std::io::Cursor::new(bytes.as_slice()), None)?;
    Ok(reader.map(|item| item.map(|inner| IpcBatch { inner })).collect())
}

/// The bytes of the Arrow IPC file that carries the given batches in
/// order, under the first batch's schema.
pub uninterp spec fn batches_file_ipc(batches: Seq<IpcBatch>) -> Seq<u8>;

/// Relies on arrow_ipc::writer::FileWriter: try_new with the first
/// batch's schema, one write per batch in order, and finish produce the
/// IPC file holding exactly those batches.  The writer never compares a
/// later batch's schema with the file's, so the precondition demands
/// what the reader needs: one schema for the whole set.
#[verifier::external_body]
pub(crate) fn ipc_write_batch_set(batches: &Vec<IpcBatch>) -> (r: Result<
    Vec<u8>,
    arrow_schema::ArrowError,
>)
    requires
        batches@.len() >= 1,
        forall|i: int|
            0 <= i < batches@.len() ==> batch_schema_key(#[trigger] batches@[i])
                == batch_schema_key(batches@[0]),
    ensures
        r is Ok <==> batch_set_encodes(batches@),
        r is Ok ==> r.unwrap()@ == batches_file_ipc(batches@),
{
    let mut buf: Vec<u8> = Vec::new();
    {
        let schema = batches[0].inner.schema();
        let mut fw = arrow_ipc::writer::FileWriter::try_new(&mut buf, schema.as_ref())?;
        for b in batches.iter() {
            fw.write(&b.inner)?;
        }
        fw.finish()?;
    }
    Ok(buf)
}

/// Relies on RecordBatch::clone, which shares the same schema and
/// columns: the clone is the same batch.
#[verifier::external_body]
pub(crate) fn batch_clone(b: &IpcBatch) -> (r: IpcBatch)
    ensures
        r == *b,
{
    IpcBatch { inner: b.inner.clone() }
}

/// Relies on RecordBatch::num_rows, which returns the batch's row count.
#[verifier::external_body]
pub(crate) fn batch_num_rows(batch: &IpcBatch) -> (n: usize)
    ensures
        n == batch_rows(*batch),
{
    batch.inner.num_rows()
}

/// Relies on RecordBatch::slice, which keeps the schema and columns and
/// returns the `length` rows starting at `offset`; it panics outside the
/// batch's row range, which the precondition rules out.
#[verifier::external_body]
pub(crate) fn batch_slice(
    batch: &IpcBatch,
    offset: usize,
    length: usize,
) -> (r: IpcBatch)
    requires
        offset + length <= batch_rows(*batch),
    ensures
        r == slice_of(*batch, offset as int, length as int),
        batch_rows(r) == length,
        batch_cols(r) == batch_cols(*batch),
        batch_schema_key(r) == batch_schema_key(*batch),
{
    IpcBatch { inner: batch.inner.slice(offset, length) }
}

/// Relies on RecordBatch::schema and Schema's PartialEq: two batches
/// have the same schema key exactly when their schemas compare equal.
#[verifier::external_body]
pub(crate) fn batch_schema_eq(a: &IpcBatch, b: &IpcBatch) -> (r: bool)
    ensures
        r == (batch_schema_key(*a) == batch_schema_key(*b)),
{
    a.inner.schema() == b.inner.schema()
}

/// Relies on ArrowError's Debug rendering, which depends on the error
/// value alone.
#[verifier::external_body]
pub(crate) fn arrow_error_message(e: &arrow_schema::ArrowError) -> (r: String)
    ensures
        r@ == arrow_error_text(*e),
{
    format!("{e:?}")
}

/// Encodes a schema as the bytes of an Arrow IPC file with no batches.
/// It succeeds exactly when the writer accepts the schema (it rejects a
/// dictionary-of-dictionary field); a refusal surfaces as the Arrow
/// error text.
pub fn schema_to_bytes(schema: &arrow_schema::Schema) -> (r: Result<Vec<u8>, String>)
    ensures
        r is Ok <==> schema_encodes(*schema),
        r is Ok ==> r.unwrap()@ == schema_ipc(*schema),
        r is Err ==> exists|e: arrow_schema::ArrowError| r->Err_0@ == arrow_error_text(e),
{
    match ipc_write_schema(schema) {
        Ok(bytes) => Ok(bytes),
        Err(e) => Err(arrow_error_message(&e)),
    }
}

/// Parses the schema out of an Arrow IPC file's header.  Decoding what
/// [`schema_to_bytes`] encoded gives the schema back: the codec round
/// trips.  Malformed bytes are reported as the Arrow error text.
pub fn bytes_to_schema(bytes: &Vec<u8>) -> (r: Result<arrow_schema::Schema, String>)
    ensures
        r is Ok <==> schema_decodes(bytes@),
        forall|s: arrow_schema::Schema|
            bytes@ == schema_ipc(s) ==> r is Ok && r.unwrap() == s,
        r is Err ==> exists|e: arrow_schema::ArrowError| r->Err_0@ == arrow_error_text(e),
{
    match ipc_read_schema(bytes) {
        Ok(schema) => Ok(schema),
        Err(e) => Err(arrow_error_message(&e)),
    }
}

/// Encodes a batch as the bytes of an Arrow IPC file holding exactly that
/// batch under its own schema.
pub fn batch_to_bytes(batch: &IpcBatch) -> (r: Result<Vec<u8>, String>)
    ensures
        r is Ok <==> batch_encodes(*batch),
        r is Ok ==> r.unwrap()@ == batch_file_ipc(*batch),
        r is Err ==> exists|e: arrow_schema::ArrowError| r->Err_0@ == arrow_error_text(e),
{
    match ipc_write_batch(batch) {
        Ok(buf) => Ok(buf),
        Err(e) => Err(arrow_error_message(&e)),
    }
}

/// Parses the ordered batches out of an Arrow IPC file.  Each batch may
/// carry its own decode error, which is forwarded as its text.  Decoding
/// what [`batch_to_bytes`] encoded gives one batch back, with the row and
/// column counts it was encoded from: the codec round trips.
pub fn bytes_to_batch(bytes: &Vec<u8>) -> (r: Result<
    Vec<Result<IpcBatch, String>>,
    String,
>)
    ensures
        r is Ok <==> batch_file_decodes(bytes@),
        forall|b: IpcBatch|
            bytes@ == batch_file_ipc(b) ==> r is Ok && r.unwrap()@.len() == 1
                && r.unwrap()@[0] is Ok && batch_rows(r.unwrap()@[0].unwrap()) == batch_rows(b)
                && batch_cols(r.unwrap()@[0].unwrap()) == batch_cols(b) && batch_shape(
                r.unwrap()@[0].unwrap(),
            ) == batch_shape(b),
        forall|bs: Seq<IpcBatch>|
            bytes@ == batches_file_ipc(bs) && bs.len() >= 1 && (forall|i: int|
                0 <= i < bs.len() ==> batch_schema_key(#[trigger] bs[i]) == batch_schema_key(
                    bs[0],
                )) ==> r is Ok && r.unwrap()@.len() == bs.len() && (forall|i: int|
                0 <= i < bs.len() ==> (#[trigger] r.unwrap()@[i]) is Ok && batch_rows(
                    r.unwrap()@[i].unwrap(),
                ) == batch_rows(bs[i]) && batch_cols(r.unwrap()@[i].unwrap()) == batch_cols(
                    bs[i],
                ) && batch_shape(r.unwrap()@[i].unwrap()) == batch_shape(bs[i])),
        r is Err ==> exists|e: arrow_schema::ArrowError| r->Err_0@ == arrow_error_text(e),
{
    match ipc_read_batches(bytes) {
        Ok(batches) => {
            let ghost orig = batches@;
            let mut rest = batches;
            let mut out: Vec<Result<IpcBatch, String>> = Vec::new();
            while rest.len() > 0
                invariant
                    out@.len() + rest@.len() == orig.len(),
                    rest@ == orig.subrange(out@.len() as int, orig.len() as int),
                    forall|j: int|
                        0 <= j < out@.len() ==> ((#[trigger] out@[j]) is Ok == orig[j] is Ok && (
                        orig[j] is Ok ==> out@[j].unwrap() == orig[j].unwrap())),
                decreases rest@.len(),
            {
                let ghost k = out@.len() as int;
                let item = rest.remove(0);
                proof {
                    assert(item == orig[k]);
                    assert(rest@ =~= orig.subrange(k + 1, orig.len() as int));
                }
                match item {
                    Ok(b) => out.push(Ok(b)),
                    Err(e) => out.push(Err(arrow_error_message(&e))),
                }
            }
            Ok(out)
        }
        Err(e) => Err(arrow_error_message(&e)),
    }
}

} // verus!
