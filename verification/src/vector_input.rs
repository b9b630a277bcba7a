//! Vector-query input decoding.
//!
//! The host passes the query vector as a raw byte blob plus a discriminator
//! code: 1 for 16-bit floats, 2 for 32-bit floats, 3 for 64-bit floats, or 4
//! for a single Arrow column shipped as an IPC file blob.  The engine never
//! computes with the floating-point values; it only reassembles the
//! little-endian words and hands their bit patterns on, so the decoded
//! vectors here hold the raw bits as unsigned words of the same width.

use vstd::prelude::*;

verus! {

/// A decoded vector-query input: the element bit patterns for the three
/// float widths, or the untouched Arrow IPC blob for a column input.
pub enum VectorDataType {
    /// Bit patterns of 16-bit floats.
    F16(Vec<u16>),
    /// Bit patterns of 32-bit floats.
    F32(Vec<u32>),
    /// Bit patterns of 64-bit floats.
    F64(Vec<u64>),
    /// An Arrow IPC file expected to hold one batch with one column.
    ArrowIpc(Vec<u8>),
}

/// The `i`-th little-endian 16-bit word of `b`.
pub open spec fn spec_le16(b: Seq<u8>, i: int) -> u16 {
    (b[2 * i] + b[2 * i + 1] * 0x100) as u16
}

/// The `i`-th little-endian 32-bit word of `b`.
pub open spec fn spec_le32(b: Seq<u8>, i: int) -> u32 {
    (b[4 * i] + b[4 * i + 1] * 0x100 + b[4 * i + 2] * 0x10000 + b[4 * i + 3] * 0x1000000) as u32
}

/// The `i`-th little-endian 64-bit word of `b`.
pub open spec fn spec_le64(b: Seq<u8>, i: int) -> u64 {
    (b[8 * i] + b[8 * i + 1] * 0x100 + b[8 * i + 2] * 0x10000 + b[8 * i + 3] * 0x1000000 + b[8 * i
        + 4] * 0x100000000 + b[8 * i + 5] * 0x10000000000 + b[8 * i + 6] * 0x1000000000000 + b[8 * i
        + 7] * 0x100000000000000) as u64
}

/// Reassembles the 16-bit elements of a blob.
fn decode_words16(blob: &Vec<u8>, n: usize) -> (v: Vec<u16>)
    requires
        blob@.len() >= 2 * n,
    ensures
        v@.len() == n,
        forall|i: int| 0 <= i < n ==> v@[i] == spec_le16(blob@, i),
{
    let mut v: Vec<u16> = Vec::new();
    let m: usize = blob.len();
    let mut i: usize = 0;
    while i < n
        invariant
            i <= n,
            m == blob@.len(),
            blob@.len() >= 2 * n,
            v@.len() == i,
            forall|j: int| 0 <= j < i ==> v@[j] == spec_le16(blob@, j),
        decreases n - i,
    {
        let w: u16 = blob[2 * i] as u16 + blob[2 * i + 1] as u16 * 0x100;
        v.push(w);
        i = i + 1;
    }
    v
}

/// Reassembles the 32-bit elements of a blob.
fn decode_words32(blob: &Vec<u8>, n: usize) -> (v: Vec<u32>)
    requires
        blob@.len() >= 4 * n,
    ensures
        v@.len() == n,
        forall|i: int| 0 <= i < n ==> v@[i] == spec_le32(blob@, i),
{
    let mut v: Vec<u32> = Vec::new();
    let m: usize = blob.len();
    let mut i: usize = 0;
    while i < n
        invariant
            i <= n,
            m == blob@.len(),
            blob@.len() >= 4 * n,
            v@.len() == i,
            forall|j: int| 0 <= j < i ==> v@[j] == spec_le32(blob@, j),
        decreases n - i,
    {
        let w: u32 = blob[4 * i] as u32 + blob[4 * i + 1] as u32 * 0x100 + blob[4 * i + 2] as u32
            * 0x10000 + blob[4 * i + 3] as u32 * 0x1000000;
        v.push(w);
        i = i + 1;
    }
    v
}

/// Reassembles the 64-bit elements of a blob.
fn decode_words64(blob: &Vec<u8>, n: usize) -> (v: Vec<u64>)
    requires
        blob@.len() >= 8 * n,
    ensures
        v@.len() == n,
        forall|i: int| 0 <= i < n ==> v@[i] == spec_le64(blob@, i),
{
    let mut v: Vec<u64> = Vec::new();
    let m: usize = blob.len();
    let mut i: usize = 0;
    while i < n
        invariant
            i <= n,
            m == blob@.len(),
            blob@.len() >= 8 * n,
            v@.len() == i,
            forall|j: int| 0 <= j < i ==> v@[j] == spec_le64(blob@, j),
        decreases n - i,
    {
        let w: u64 = blob[8 * i] as u64 + blob[8 * i + 1] as u64 * 0x100 + blob[8 * i + 2] as u64
            * 0x10000 + blob[8 * i + 3] as u64 * 0x1000000 + blob[8 * i + 4] as u64 * 0x100000000
            + blob[8 * i + 5] as u64 * 0x10000000000 + blob[8 * i + 6] as u64 * 0x1000000000000
            + blob[8 * i + 7] as u64 * 0x100000000000000;
        v.push(w);
        i = i + 1;
    }
    v
}

impl VectorDataType {
    /// Decodes the host's vector blob.  The discriminator picks the element
    /// width; the blob must hold at least `num_elements` elements of that
    /// width — the first `num_elements` are decoded, extra bytes are
    /// ignored — or it is rejected before any command is dispatched.  A
    /// column input (code 4) is carried through as the IPC bytes it
    /// arrived in.
    pub fn from_blob(vector_type: u32, blob: &Vec<u8>, num_elements: usize) -> (r: Result<
        VectorDataType,
        &'static str,
    >)
        ensures
            r is Ok <==> (vector_type == 4 || (vector_type == 1 && blob@.len() >= 2 * num_elements)
                || (vector_type == 2 && blob@.len() >= 4 * num_elements) || (vector_type == 3
                && blob@.len() >= 8 * num_elements)),
            vector_type == 1 && blob@.len() >= 2 * num_elements ==> (r.unwrap() is F16 && {
                let v = r.unwrap()->F16_0;
                v@.len() == num_elements && forall|i: int|
                    0 <= i < num_elements ==> v@[i] == spec_le16(blob@, i)
            }),
            vector_type == 2 && blob@.len() >= 4 * num_elements ==> (r.unwrap() is F32 && {
                let v = r.unwrap()->F32_0;
                v@.len() == num_elements && forall|i: int|
                    0 <= i < num_elements ==> v@[i] == spec_le32(blob@, i)
            }),
            vector_type == 3 && blob@.len() >= 8 * num_elements ==> (r.unwrap() is F64 && {
                let v = r.unwrap()->F64_0;
                v@.len() == num_elements && forall|i: int|
                    0 <= i < num_elements ==> v@[i] == spec_le64(blob@, i)
            }),
            vector_type == 4 ==> (r.unwrap() is ArrowIpc && r.unwrap()->ArrowIpc_0@ == blob@),
            (vector_type == 1 || vector_type == 2 || vector_type == 3 || vector_type == 4)
                && r is Err ==> r->Err_0@ == "vector blob too short for the element count"@,
            !(vector_type == 1 || vector_type == 2 || vector_type == 3 || vector_type == 4)
                ==> r is Err && r->Err_0@ == "invalid vector type"@,
    {
        if vector_type == 1 {
            if blob.len() / 2 >= num_elements {
                assert(blob@.len() >= 2 * num_elements);
                Ok(VectorDataType::F16(decode_words16(blob, num_elements)))
            } else {
                assert(blob@.len() < 2 * num_elements);
                Err("vector blob too short for the element count")
            }
        } else if vector_type == 2 {
            if blob.len() / 4 >= num_elements {
                assert(blob@.len() >= 4 * num_elements);
                Ok(VectorDataType::F32(decode_words32(blob, num_elements)))
            } else {
                assert(blob@.len() < 4 * num_elements);
                Err("vector blob too short for the element count")
            }
        } else if vector_type == 3 {
            if blob.len() / 8 >= num_elements {
                assert(blob@.len() >= 8 * num_elements);
                Ok(VectorDataType::F64(decode_words64(blob, num_elements)))
            } else {
                assert(blob@.len() < 8 * num_elements);
                Err("vector blob too short for the element count")
            }
        } else if vector_type == 4 {
            Ok(VectorDataType::ArrowIpc(clone_bytes(blob)))
        } else {
            Err("invalid vector type")
        }
    }
}

/// Copies a byte buffer.
fn clone_bytes(b: &Vec<u8>) -> (r: Vec<u8>)
    ensures
        r@ == b@,
{
    let mut r: Vec<u8> = Vec::new();
    let mut i: usize = 0;
    while i < b.len()
        invariant
            i <= b@.len(),
            r@ == b@.subrange(0, i as int),
        decreases b@.len() - i,
    {
        r.push(b[i]);
        i = i + 1;
    }
    proof {
        assert(r@ =~= b@);
    }
    r
}

} // verus!
