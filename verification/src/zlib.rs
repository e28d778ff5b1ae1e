//! Inflating zlib streams, done by `miniz_oxide`.

use vstd::prelude::*;

verus! {

/// Why inflating stopped short of a whole stream.
#[derive(Debug, Clone, Copy, PartialEq, Eq, Structural)]
pub enum InflateStatus {
    /// the input ended inside the stream
    FailedCannotMakeProgress,
    /// the output buffer has an invalid size
    BadParam,
    /// the checksum at the end differs from that of the data
    Adler32Mismatch,
    /// the input is no valid stream
    Failed,
    /// the stream ended
    Done,
    /// more input is needed
    NeedsMoreInput,
    /// more output is pending
    HasMoreOutput,
}

/// Mathematical value of an inflate result.
pub open spec fn inflated_view(r: Result<Vec<u8>, InflateStatus>) -> Result<Seq<u8>, InflateStatus> {
    match r {
        Ok(plain) => Ok(plain@),
        Err(status) => Err(status),
    }
}

/// What `miniz_oxide` inflates the zlib stream `data` to, or the status it
/// fails with.
pub uninterp spec fn zlib_inflate(data: Seq<u8>) -> Result<Seq<u8>, InflateStatus>;

/// Calls `miniz_oxide::inflate::decompress_to_vec_zlib`, which sets no
/// limit to the size of what it inflates.
///
/// Trusted: the result is the named value [`zlib_inflate`] of the argument.
#[verifier::external_body]
pub(crate) fn inflate(data: &[u8]) -> (r: Result<Vec<u8>, InflateStatus>)
    ensures
        inflated_view(r) == zlib_inflate(data@),
{
    miniz_oxide::inflate::decompress_to_vec_zlib(data).map_err(|status| match status {
        miniz_oxide::inflate::TINFLStatus::FailedCannotMakeProgress => InflateStatus::FailedCannotMakeProgress,
        miniz_oxide::inflate::TINFLStatus::BadParam => InflateStatus::BadParam,
        miniz_oxide::inflate::TINFLStatus::Adler32Mismatch => InflateStatus::Adler32Mismatch,
        miniz_oxide::inflate::TINFLStatus::Failed => InflateStatus::Failed,
        miniz_oxide::inflate::TINFLStatus::Done => InflateStatus::Done,
        miniz_oxide::inflate::TINFLStatus::NeedsMoreInput => InflateStatus::NeedsMoreInput,
        miniz_oxide::inflate::TINFLStatus::HasMoreOutput => InflateStatus::HasMoreOutput,
    })
}

} // verus!
