//! How each partition of the embedded key/value backend is tuned: partitions
//! keyed by a fixed-width prefix get a prefix extractor and the
//! concatenating merge; the others get stronger compression at the bottom
//! level, where data is unlikely to be rewritten.
use vstd::prelude::*;

verus! {

/// A block compression scheme.
#[derive(PartialEq, Eq, Structural, Debug, Clone, Copy)]
pub enum Compression {
    Lz4,
    Zstd,
}

/// The settings of one partition.
#[derive(PartialEq, Eq, Structural, Debug, Clone, Copy)]
pub struct ColumnTuning {
    /// Width of the fixed key prefix to extract and filter on, if any.
    pub prefix_len: Option<usize>,
    /// Compression of all levels.
    pub compression: Compression,
    /// Compression of the bottommost level, where it differs.
    pub bottommost_compression: Option<Compression>,
    /// Whether writes to one key are merged by concatenation.
    pub concat_merge: bool,
}

/// The settings of a partition whose keys share a prefix of `prefix` bytes
/// (`None`: no prefix scheme).
pub fn tuning_for(prefix: Option<usize>) -> (r: ColumnTuning)
    ensures
        r.prefix_len == prefix,
        r.compression == Compression::Lz4,
        r.concat_merge == prefix is Some,
        r.bottommost_compression == (if prefix is Some {
            None
        } else {
            Some(Compression::Zstd)
        }),
{
    match prefix {
        Some(n) => ColumnTuning {
            prefix_len: Some(n),
            compression: Compression::Lz4,
            bottommost_compression: None,
            concat_merge: true,
        },
        None => ColumnTuning {
            prefix_len: None,
            compression: Compression::Lz4,
            bottommost_compression: Some(Compression::Zstd),
            concat_merge: false,
        },
    }
}

} // verus!
