//! Request validation and marshalling.
//!
//! Before a command is dispatched, the raw values that crossed the C
//! boundary are checked and reshaped here: the flat key/value options
//! array is paired up, update expressions are split at their `=`, the
//! URI's `file://` scheme is stripped, a NaN distance bound means "no
//! bound", a zero limit means "no limit", and an empty or `default`
//! tokenizer name means the vendor's simple tokenizer.  A malformed value
//! is rejected with a specific message and no command is dispatched.

use vstd::prelude::*;
use crate::enums::{IndexType, MetricType};
use crate::vector_input::VectorDataType;

verus! {

/// Pairs up a flat `[key, value, key, value, ...]` options array.  An
/// odd-length array is malformed and rejected before any command is
/// dispatched.
pub fn pair_options(flat: &Vec<String>) -> (r: Result<Vec<(String, String)>, &'static str>)
    ensures
        r is Ok <==> flat@.len() % 2 == 0,
        r is Err ==> r->Err_0@
            == "Options length must be an even number, representing key/value pairs."@,
        r is Ok ==> ({
            let pairs = r.unwrap();
            pairs@.len() == flat@.len() / 2 && forall|i: int|
                0 <= i < pairs@.len() ==> (#[trigger] pairs@[i]).0@ == flat@[2 * i]@
                    && pairs@[i].1@ == flat@[2 * i + 1]@
        }),
{
    let n = flat.len();
    if n % 2 != 0 {
        return Err("Options length must be an even number, representing key/value pairs.");
    }
    let mut pairs: Vec<(String, String)> = Vec::new();
    let mut i: usize = 0;
    while i < n / 2
        invariant
            n == flat@.len(),
            n % 2 == 0,
            i <= n / 2,
            pairs@.len() == i,
            forall|j: int|
                0 <= j < i ==> (#[trigger] pairs@[j]).0@ == flat@[2 * j]@ && pairs@[j].1@ == flat@[2
                    * j + 1]@,
        decreases n / 2 - i,
    {
        let key = flat[2 * i].clone();
        let value = flat[2 * i + 1].clone();
        pairs.push((key, value));
        i = i + 1;
    }
    Ok(pairs)
}

/// How many `=` bytes a buffer holds.
pub open spec fn spec_count_eq(s: Seq<u8>) -> nat
    decreases s.len(),
{
    if s.len() == 0 {
        0
    } else {
        spec_count_eq(s.drop_last()) + if s.last() == 61u8 {
            1nat
        } else {
            0nat
        }
    }
}

/// Counting `=` bytes distributes over concatenation.
proof fn lemma_count_eq_add(a: Seq<u8>, b: Seq<u8>)
    ensures
        spec_count_eq(a + b) == spec_count_eq(a) + spec_count_eq(b),
    decreases b.len(),
{
    if b.len() == 0 {
        assert(a + b =~= a);
    } else {
        lemma_count_eq_add(a, b.drop_last());
        assert((a + b).drop_last() =~= a + b.drop_last());
        assert((a + b).last() == b.last());
    }
}

/// Copies the byte range `[a, b)` of a buffer.
fn bytes_range(s: &Vec<u8>, a: usize, b: usize) -> (r: Vec<u8>)
    requires
        a <= b <= s@.len(),
    ensures
        r@ == s@.subrange(a as int, b as int),
{
    let mut r: Vec<u8> = Vec::new();
    let mut i: usize = a;
    while i < b
        invariant
            a <= i <= b <= s@.len(),
            r@ == s@.subrange(a as int, i as int),
        decreases b - i,
    {
        r.push(s[i]);
        proof {
            assert(r@ =~= s@.subrange(a as int, i + 1));
        }
        i = i + 1;
    }
    r
}

/// Splits an update expression `column=expression` at its `=`.  The
/// expression must hold exactly one `=` byte; anything else is a
/// malformed update expression and is rejected.  The two parts joined by
/// the `=` give the input back, and neither part holds another `=`.
pub fn split_update_expression(s: &Vec<u8>) -> (r: Option<(Vec<u8>, Vec<u8>)>)
    ensures
        r is Some <==> spec_count_eq(s@) == 1,
        r is Some ==> ({
            let (column, expression) = r.unwrap();
            column@ + seq![61u8] + expression@ == s@ && spec_count_eq(column@) == 0
                && spec_count_eq(expression@) == 0
        }),
{
    let n = s.len();
    let mut count: usize = 0;
    let mut i: usize = 0;
    while i < n
        invariant
            n == s@.len(),
            i <= n,
            count <= i,
            count == spec_count_eq(s@.subrange(0, i as int)),
        decreases n - i,
    {
        proof {
            assert(s@.subrange(0, i + 1).drop_last() =~= s@.subrange(0, i as int));
            assert(s@.subrange(0, i + 1).last() == s@[i as int]);
        }
        if s[i] == 61u8 {
            count = count + 1;
        }
        i = i + 1;
    }
    proof {
        assert(s@.subrange(0, n as int) =~= s@);
    }
    if count != 1 {
        return None;
    }
    let mut idx: usize = 0;
    while idx < n
        invariant
            n == s@.len(),
            idx <= n,
            spec_count_eq(s@) == 1,
            spec_count_eq(s@.subrange(0, idx as int)) == 0,
        decreases n - idx,
    {
        proof {
            assert(s@.subrange(0, idx + 1).drop_last() =~= s@.subrange(0, idx as int));
            assert(s@.subrange(0, idx + 1).last() == s@[idx as int]);
        }
        if s[idx] == 61u8 {
            let column = bytes_range(s, 0, idx);
            let expression = bytes_range(s, idx + 1, n);
            proof {
                assert(s@.subrange(0, idx + 1) =~= s@.subrange(0, idx as int) + seq![61u8]);
                lemma_count_eq_add(s@.subrange(0, idx as int), seq![61u8]);
                assert(spec_count_eq(seq![61u8]) == 1) by {
                    assert(seq![61u8].drop_last() =~= Seq::<u8>::empty());
                }
                assert(spec_count_eq(s@.subrange(0, idx + 1)) == 1);
                assert(s@ =~= s@.subrange(0, idx + 1) + s@.subrange(idx + 1, n as int));
                lemma_count_eq_add(s@.subrange(0, idx + 1), s@.subrange(idx + 1, n as int));
                assert(spec_count_eq(s@.subrange(idx + 1, n as int)) == 0);
                assert(column@ + seq![61u8] + expression@ =~= s@);
            }
            return Some((column, expression));
        }
        idx = idx + 1;
    }
    proof {
        assert(s@.subrange(0, n as int) =~= s@);
        assert(false);
    }
    None
}

/// The bytes of the `file://` scheme prefix.
pub open spec fn spec_file_scheme() -> Seq<u8> {
    seq![102u8, 105u8, 108u8, 101u8, 58u8, 47u8, 47u8]
}

/// The URI with every `file://` occurrence removed, scanning left to
/// right.  The vendor client wants plain paths, not `file://` URIs.
pub open spec fn spec_strip_file_scheme(s: Seq<u8>) -> Seq<u8>
    decreases s.len(),
{
    if s.len() < 7 {
        s
    } else if s.subrange(0, 7) == spec_file_scheme() {
        spec_strip_file_scheme(s.skip(7))
    } else {
        seq![s[0]] + spec_strip_file_scheme(s.skip(1))
    }
}

/// Whether the `file://` scheme starts at position `i`.
fn scheme_at(s: &Vec<u8>, i: usize) -> (r: bool)
    requires
        i + 7 <= s@.len(),
    ensures
        r == (s@.subrange(i as int, i + 7) == spec_file_scheme()),
{
    let m = s.len();
    let hit = s[i] == 102u8 && s[i + 1] == 105u8 && s[i + 2] == 108u8 && s[i + 3] == 101u8 && s[i
        + 4] == 58u8 && s[i + 5] == 47u8 && s[i + 6] == 47u8;
    proof {
        if hit {
            assert(s@.subrange(i as int, i + 7) =~= spec_file_scheme());
        } else {
            assert(s@.subrange(i as int, i + 7) != spec_file_scheme()) by {
                let w = s@.subrange(i as int, i + 7);
                assert(w[0] == s@[i as int] && w[1] == s@[i + 1] && w[2] == s@[i + 2] && w[3]
                    == s@[i + 3] && w[4] == s@[i + 4] && w[5] == s@[i + 5] && w[6] == s@[i + 6]);
            }
        }
    }
    hit
}

/// Removes every `file://` occurrence from a URI, scanning left to
/// right, as the vendor's path handling expects.
pub fn strip_file_scheme(uri: &Vec<u8>) -> (r: Vec<u8>)
    ensures
        r@ == spec_strip_file_scheme(uri@),
{
    let n = uri.len();
    let mut out: Vec<u8> = Vec::new();
    let mut i: usize = 0;
    proof {
        assert(uri@.skip(0) =~= uri@);
    }
    while i < n
        invariant
            n == uri@.len(),
            i <= n,
            out@ + spec_strip_file_scheme(uri@.skip(i as int)) == spec_strip_file_scheme(uri@),
        decreases n - i,
    {
        if n - i >= 7 && scheme_at(uri, i) {
            proof {
                let rest = uri@.skip(i as int);
                assert(rest.subrange(0, 7) =~= uri@.subrange(i as int, i + 7));
                assert(rest.skip(7) =~= uri@.skip(i + 7));
            }
            i = i + 7;
        } else {
            proof {
                let rest = uri@.skip(i as int);
                assert(rest.len() >= 1);
                if rest.len() >= 7 {
                    assert(rest.subrange(0, 7) =~= uri@.subrange(i as int, i + 7));
                }
                assert(rest[0] == uri@[i as int]);
                assert(rest.skip(1) =~= uri@.skip(i + 1));
                assert((out@ + seq![uri@[i as int]]) + spec_strip_file_scheme(uri@.skip(i + 1))
                    =~= out@ + spec_strip_file_scheme(uri@.skip(i as int)));
            }
            out.push(uri[i]);
            i = i + 1;
        }
    }
    proof {
        assert(uri@.skip(n as int) =~= Seq::<u8>::empty());
        assert(out@ + Seq::<u8>::empty() =~= out@);
    }
    out
}

/// Whether a 32-bit float bit pattern is a NaN: all exponent bits set and
/// a non-zero mantissa.
pub open spec fn spec_f32_bits_is_nan(bits: u32) -> bool {
    bits & 0x7f800000 == 0x7f800000 && bits & 0x007fffff != 0
}

/// Turns a raw 32-bit float bit pattern into a distance bound: the host
/// passes NaN for "no bound".
pub fn distance_bound_from_bits(bits: u32) -> (r: Option<u32>)
    ensures
        r == if spec_f32_bits_is_nan(bits) {
            Option::<u32>::None
        } else {
            Option::<u32>::Some(bits)
        },
{
    if bits & 0x7f800000 == 0x7f800000 && bits & 0x007fffff != 0 {
        None
    } else {
        Some(bits)
    }
}

/// One plain (non-vector) query as the dispatcher hands it to a handler
/// task.
pub struct QueryRequest {
    /// At most this many rows come back; `None` leaves the vendor's
    /// default in force.
    pub limit: Option<u64>,
    /// SQL-like row predicate.
    pub where_clause: Option<String>,
    /// Whether to project the row id column.
    pub with_row_id: bool,
    /// Project only these columns.
    pub selected_columns: Option<Vec<String>>,
    /// Full-text-search clause.
    pub full_text_search: Option<String>,
    /// Batches larger than this are sliced before delivery; zero means
    /// no bound.
    pub batch_size: u32,
}

/// Builds a plain query request.  A zero limit from the host means "no
/// limit"; everything else is carried through unchanged.
pub fn build_query_request(
    limit: u64,
    where_clause: Option<String>,
    with_row_id: bool,
    selected_columns: Option<Vec<String>>,
    full_text_search: Option<String>,
    batch_size: u32,
) -> (q: QueryRequest)
    ensures
        q.limit == if limit == 0 {
            Option::<u64>::None
        } else {
            Option::<u64>::Some(limit)
        },
        q.where_clause == where_clause,
        q.with_row_id == with_row_id,
        q.selected_columns == selected_columns,
        q.full_text_search == full_text_search,
        q.batch_size == batch_size,
{
    QueryRequest {
        limit: if limit == 0 {
            None
        } else {
            Some(limit)
        },
        where_clause,
        with_row_id,
        selected_columns,
        full_text_search,
        batch_size,
    }
}

/// One vector query as the dispatcher hands it to a handler task.
pub struct VectorQueryRequest {
    /// The plain-query part: limit, predicate, projection, batch bound.
    /// A vector query carries no full-text clause.
    pub base: QueryRequest,
    /// The query vector.
    pub vector: VectorDataType,
    /// The distance metric.
    pub metric: MetricType,
    /// IVF probe count; zero leaves the vendor's default in force.
    pub n_probes: u64,
    /// Refinement factor; zero leaves the vendor's default in force.
    pub refine_factor: u32,
    /// Lower distance bound, as a 32-bit float bit pattern.
    pub distance_range_min: Option<u32>,
    /// Upper distance bound, as a 32-bit float bit pattern.
    pub distance_range_max: Option<u32>,
}

/// Builds a vector query request.  A zero limit means "no limit" and a
/// NaN distance bound means "no bound"; everything else is carried
/// through unchanged.
pub fn build_vector_query_request(
    limit: u64,
    where_clause: Option<String>,
    with_row_id: bool,
    selected_columns: Option<Vec<String>>,
    batch_size: u32,
    vector: VectorDataType,
    metric: MetricType,
    n_probes: u64,
    refine_factor: u32,
    distance_range_min_bits: u32,
    distance_range_max_bits: u32,
) -> (q: VectorQueryRequest)
    ensures
        q.base.limit == if limit == 0 {
            Option::<u64>::None
        } else {
            Option::<u64>::Some(limit)
        },
        q.base.where_clause == where_clause,
        q.base.with_row_id == with_row_id,
        q.base.selected_columns == selected_columns,
        q.base.full_text_search is None,
        q.base.batch_size == batch_size,
        q.vector == vector,
        q.metric == metric,
        q.n_probes == n_probes,
        q.refine_factor == refine_factor,
        q.distance_range_min == if spec_f32_bits_is_nan(distance_range_min_bits) {
            Option::<u32>::None
        } else {
            Option::<u32>::Some(distance_range_min_bits)
        },
        q.distance_range_max == if spec_f32_bits_is_nan(distance_range_max_bits) {
            Option::<u32>::None
        } else {
            Option::<u32>::Some(distance_range_max_bits)
        },
{
    VectorQueryRequest {
        base: build_query_request(limit, where_clause, with_row_id, selected_columns, None, batch_size),
        vector,
        metric,
        n_probes,
        refine_factor,
        distance_range_min: distance_bound_from_bits(distance_range_min_bits),
        distance_range_max: distance_bound_from_bits(distance_range_max_bits),
    }
}

/// The base tokenizer to configure for a full-text index: an empty or
/// `default` tokenizer name means the vendor's simple tokenizer, anything
/// else names the tokenizer itself.
pub fn fts_base_tokenizer(tokenizer_name: String) -> (r: Option<String>)
    ensures
        r is None <==> (tokenizer_name@.len() == 0 || tokenizer_name@ == "default"@),
        r is Some ==> r.unwrap() == tokenizer_name,
{
    let empty = String::new();
    let default_name: String = String::from_str("default");
    if tokenizer_name.eq(&empty) || tokenizer_name.eq(&default_name) {
        None
    } else {
        proof {
            if tokenizer_name@.len() == 0 {
                assert(tokenizer_name@ =~= Seq::<char>::empty());
            }
        }
        Some(tokenizer_name)
    }
}

/// How a table optimize request is carried out: all at once, or as the
/// staged prune, compact and index pass with explicit pruning options.
#[derive(Debug, Clone, Copy, PartialEq, Eq, Structural)]
pub enum OptimizePlan {
    /// Run the vendor's full optimize: compaction, pruning and index
    /// optimization with defaults.
    Full,
    /// Prune with the given options, then compact, then optimize the
    /// indices.
    Staged {
        /// Prune versions older than this many seconds, or the vendor
        /// default when absent.
        prune_older_than_seconds: Option<u64>,
        /// Also delete unverified files.
        delete_unverified: bool,
    },
}

/// Decides how to optimize: with no pruning options the whole optimize
/// runs at once; a non-negative age or the delete-unverified flag selects
/// the staged pass.  A negative age means "no age given".
pub fn optimize_plan(prune_older_than_seconds: i64, delete_unverified: bool) -> (p: OptimizePlan)
    ensures
        (prune_older_than_seconds < 0 && !delete_unverified) ==> p == OptimizePlan::Full,
        !(prune_older_than_seconds < 0 && !delete_unverified) ==> p == (OptimizePlan::Staged {
            prune_older_than_seconds: if prune_older_than_seconds < 0 {
                Option::<u64>::None
            } else {
                Option::<u64>::Some(prune_older_than_seconds as u64)
            },
            delete_unverified,
        }),
{
    if prune_older_than_seconds < 0 && !delete_unverified {
        OptimizePlan::Full
    } else {
        OptimizePlan::Staged {
            prune_older_than_seconds: if prune_older_than_seconds < 0 {
                None
            } else {
                Some(prune_older_than_seconds as u64)
            },
            delete_unverified,
        }
    }
}

/// The argument tuple for the host's index-statistics callback: index
/// kind code, metric code, rows indexed, index count, rows not yet
/// indexed.  An absent statistic reports all zeroes, an absent metric
/// reports metric code zero, and an absent index count reports zero.
pub fn index_stats_reply(
    stats: Option<(IndexType, Option<MetricType>, u64, Option<u64>, u64)>,
) -> (r: (u32, u32, u64, u64, u64))
    ensures
        stats is None ==> r == (0u32, 0u32, 0u64, 0u64, 0u64),
        stats is Some ==> ({
            let (index_type, metric, indexed_rows, index_count, unindexed_rows) = stats.unwrap();
            r.0 == index_type.spec_code() && r.1 == (match metric {
                Some(m) => m.spec_code(),
                None => 0u32,
            }) && r.2 == indexed_rows && r.3 == (match index_count {
                Some(c) => c,
                None => 0u64,
            }) && r.4 == unindexed_rows
        }),
{
    match stats {
        None => (0, 0, 0, 0, 0),
        Some((index_type, metric, indexed_rows, index_count, unindexed_rows)) => {
            let metric_code = match metric {
                Some(m) => m.code(),
                None => 0,
            };
            let count = match index_count {
                Some(c) => c,
                None => 0,
            };
            (index_type.code(), metric_code, indexed_rows, count, unindexed_rows)
        },
    }
}

} // verus!
