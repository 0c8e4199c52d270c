use vstd::prelude::*;
use crate::source::Source;

verus! {

/// What can go wrong while loading kernels or planning a launch.
#[derive(Debug)]
pub enum MetalKernelError {
    LockError(String),
    LoadLibraryError(String),
    LoadFunctionError(String),
    FailedToCreateComputeFunction,
    FailedToCreatePipeline(String),
    MatMulNonContiguous { lhs_stride: Vec<usize>, rhs_stride: Vec<usize>, mnk: (usize, usize, usize) },
}

/// The message a failed library load is reported with: Metal's own message,
/// behind an explanation for the precompiled `Mfa` library.
pub open spec fn library_load_message(source: Source, detail: Seq<char>) -> Seq<char> {
    if source == Source::Mfa {
        "Candle metal requires macosx > 13.0 or higher, cannot load mfa: "@ + detail
    } else {
        detail
    }
}

/// The error for a library of `source` that Metal would not load, with Metal's message.
pub fn library_load_error(source: Source, detail: String) -> (e: MetalKernelError)
    ensures
        e matches MetalKernelError::LoadLibraryError(msg) && msg@ == library_load_message(source, detail@),
{
    match source {
        Source::Mfa => {
            let mut msg = "Candle metal requires macosx > 13.0 or higher, cannot load mfa: ".to_owned();
            msg.append(detail.as_str());
            MetalKernelError::LoadLibraryError(msg)
        },
        _ => MetalKernelError::LoadLibraryError(detail),
    }
}

} // verus!
