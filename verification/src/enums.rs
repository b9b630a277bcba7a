//! Small enums that cross the C boundary as stable unsigned codes.
//!
//! The host speaks in integers; the engine speaks in these enums.  Every
//! enum here has a total `code` and a partial `from_code` that are inverse
//! to each other on the valid codes, so a malformed code is rejected before
//! any command is dispatched instead of being guessed at.

use vstd::prelude::*;

verus! {

/// Distance metric for vector search.  Code 0 stands for "no metric" in
/// index statistics reported towards the host; it never names a usable
/// search metric.
#[derive(Copy, Clone, Debug, PartialEq, Eq, Structural)]
pub enum MetricType {
    /// No metric; only reported outwards, never accepted inwards as a
    /// search metric.
    Unspecified,
    /// Euclidean distance.
    L2,
    /// Cosine distance.
    Cosine,
    /// Dot product.
    Dot,
    /// Hamming distance.
    Hamming,
}

impl MetricType {
    /// The stable wire code of this metric.
    pub open spec fn spec_code(self) -> u32 {
        match self {
            MetricType::Unspecified => 0,
            MetricType::L2 => 1,
            MetricType::Cosine => 2,
            MetricType::Dot => 3,
            MetricType::Hamming => 4,
        }
    }

    /// The stable wire code of this metric.
    pub fn code(self) -> (c: u32)
        ensures
            c == self.spec_code(),
            Self::spec_from_code(c) == Some(self),
            c <= 4,
    {
        match self {
            MetricType::Unspecified => 0,
            MetricType::L2 => 1,
            MetricType::Cosine => 2,
            MetricType::Dot => 3,
            MetricType::Hamming => 4,
        }
    }

    /// The metric a wire code names, if any.
    pub open spec fn spec_from_code(c: u32) -> Option<MetricType> {
        if c == 0 {
            Some(MetricType::Unspecified)
        } else if c == 1 {
            Some(MetricType::L2)
        } else if c == 2 {
            Some(MetricType::Cosine)
        } else if c == 3 {
            Some(MetricType::Dot)
        } else if c == 4 {
            Some(MetricType::Hamming)
        } else {
            None
        }
    }

    /// Decodes a wire code; codes above 4 are malformed.
    pub fn from_code(c: u32) -> (r: Option<MetricType>)
        ensures
            r == Self::spec_from_code(c),
    {
        match c {
            0 => Some(MetricType::Unspecified),
            1 => Some(MetricType::L2),
            2 => Some(MetricType::Cosine),
            3 => Some(MetricType::Dot),
            4 => Some(MetricType::Hamming),
            _ => None,
        }
    }

    /// The metric actually handed to the vendor client: "no metric" is not
    /// representable there and falls back to Euclidean distance.
    pub fn effective(self) -> (r: MetricType)
        ensures
            self == MetricType::Unspecified ==> r == MetricType::L2,
            self != MetricType::Unspecified ==> r == self,
    {
        match self {
            MetricType::Unspecified => MetricType::L2,
            other => other,
        }
    }
}

/// Every index kind the vendor client can report, encoded for the host.
#[derive(Debug, Clone, Copy, PartialEq, Eq, Structural)]
pub enum IndexType {
    /// B-tree scalar index.
    BTree,
    /// Bitmap scalar index.
    Bitmap,
    /// Label-list scalar index.
    LabelList,
    /// Full-text-search index.
    Fts,
    /// HNSW index with product quantization.
    HnswPq,
    /// HNSW index with scalar quantization.
    HnswSq,
    /// IVF index with product quantization.
    IvfPq,
}

impl IndexType {
    /// The stable wire code of this index kind.
    pub open spec fn spec_code(self) -> u32 {
        match self {
            IndexType::BTree => 0,
            IndexType::Bitmap => 1,
            IndexType::LabelList => 2,
            IndexType::Fts => 3,
            IndexType::HnswPq => 4,
            IndexType::HnswSq => 5,
            IndexType::IvfPq => 6,
        }
    }

    /// The stable wire code of this index kind.
    pub fn code(self) -> (c: u32)
        ensures
            c == self.spec_code(),
            Self::spec_from_code(c) == Some(self),
            c <= 6,
    {
        match self {
            IndexType::BTree => 0,
            IndexType::Bitmap => 1,
            IndexType::LabelList => 2,
            IndexType::Fts => 3,
            IndexType::HnswPq => 4,
            IndexType::HnswSq => 5,
            IndexType::IvfPq => 6,
        }
    }

    /// The index kind a wire code names, if any.
    pub open spec fn spec_from_code(c: u32) -> Option<IndexType> {
        if c == 0 {
            Some(IndexType::BTree)
        } else if c == 1 {
            Some(IndexType::Bitmap)
        } else if c == 2 {
            Some(IndexType::LabelList)
        } else if c == 3 {
            Some(IndexType::Fts)
        } else if c == 4 {
            Some(IndexType::HnswPq)
        } else if c == 5 {
            Some(IndexType::HnswSq)
        } else if c == 6 {
            Some(IndexType::IvfPq)
        } else {
            None
        }
    }

    /// Decodes a wire code; codes above 6 are malformed.
    pub fn from_code(c: u32) -> (r: Option<IndexType>)
        ensures
            r == Self::spec_from_code(c),
    {
        match c {
            0 => Some(IndexType::BTree),
            1 => Some(IndexType::Bitmap),
            2 => Some(IndexType::LabelList),
            3 => Some(IndexType::Fts),
            4 => Some(IndexType::HnswPq),
            5 => Some(IndexType::HnswSq),
            6 => Some(IndexType::IvfPq),
            _ => None,
        }
    }
}

/// The scalar index kinds a host may ask to create.
#[derive(Debug, Clone, Copy, PartialEq, Eq, Structural)]
pub enum ScalarIndexType {
    /// B-tree scalar index.
    BTree,
    /// Bitmap scalar index.
    Bitmap,
    /// Label-list scalar index.
    LabelList,
}

impl ScalarIndexType {
    /// The stable wire code of this scalar index kind.
    pub fn code(self) -> (c: u32)
        ensures
            Self::spec_from_code(c) == Some(self),
            c <= 2,
    {
        match self {
            ScalarIndexType::BTree => 0,
            ScalarIndexType::Bitmap => 1,
            ScalarIndexType::LabelList => 2,
        }
    }

    /// The scalar index kind a wire code names, if any.
    pub open spec fn spec_from_code(c: u32) -> Option<ScalarIndexType> {
        if c == 0 {
            Some(ScalarIndexType::BTree)
        } else if c == 1 {
            Some(ScalarIndexType::Bitmap)
        } else if c == 2 {
            Some(ScalarIndexType::LabelList)
        } else {
            None
        }
    }

    /// Decodes a wire code; codes above 2 are malformed.
    pub fn from_code(c: u32) -> (r: Option<ScalarIndexType>)
        ensures
            r == Self::spec_from_code(c),
    {
        match c {
            0 => Some(ScalarIndexType::BTree),
            1 => Some(ScalarIndexType::Bitmap),
            2 => Some(ScalarIndexType::LabelList),
            _ => None,
        }
    }
}

/// How a record batch is written into a table.
#[derive(Debug, Clone, Copy, PartialEq, Eq, Structural)]
pub enum WriteMode {
    /// Append the rows to the table.
    Append,
    /// Replace the table's contents with the rows.
    Overwrite,
}

impl WriteMode {
    /// The stable wire code of this write mode.
    pub fn code(self) -> (c: u32)
        ensures
            Self::spec_from_code(c) == Some(self),
    {
        match self {
            WriteMode::Append => 1,
            WriteMode::Overwrite => 2,
        }
    }

    /// The write mode a wire code names, if any.
    pub open spec fn spec_from_code(c: u32) -> Option<WriteMode> {
        if c == 1 {
            Some(WriteMode::Append)
        } else if c == 2 {
            Some(WriteMode::Overwrite)
        } else {
            None
        }
    }

    /// Decodes a wire code; everything but 1 and 2 is malformed.
    pub fn from_code(c: u32) -> (r: Option<WriteMode>)
        ensures
            r == Self::spec_from_code(c),
    {
        match c {
            1 => Some(WriteMode::Append),
            2 => Some(WriteMode::Overwrite),
            _ => None,
        }
    }
}

/// What to do with rows whose vector column is malformed on ingestion.
#[derive(Debug, Clone, Copy, PartialEq, Eq, Structural)]
pub enum BadVectorHandling {
    /// Reject the whole write.
    Reject,
    /// Drop the offending rows.
    Skip,
    /// Replace the offending values with a fill value.
    Fill,
}

impl BadVectorHandling {
    /// The stable wire code of this policy.
    pub fn code(self) -> (c: u32)
        ensures
            Self::spec_from_code(c) == Some(self),
    {
        match self {
            BadVectorHandling::Reject => 1,
            BadVectorHandling::Skip => 2,
            BadVectorHandling::Fill => 3,
        }
    }

    /// The policy a wire code names, if any.
    pub open spec fn spec_from_code(c: u32) -> Option<BadVectorHandling> {
        if c == 1 {
            Some(BadVectorHandling::Reject)
        } else if c == 2 {
            Some(BadVectorHandling::Skip)
        } else if c == 3 {
            Some(BadVectorHandling::Fill)
        } else {
            None
        }
    }

    /// Decodes a wire code; everything but 1, 2 and 3 is malformed.
    pub fn from_code(c: u32) -> (r: Option<BadVectorHandling>)
        ensures
            r == Self::spec_from_code(c),
    {
        match c {
            1 => Some(BadVectorHandling::Reject),
            2 => Some(BadVectorHandling::Skip),
            3 => Some(BadVectorHandling::Fill),
            _ => None,
        }
    }
}

} // verus!
