use vstd::prelude::*;
use crate::cache::CacheKey;

verus! {

/// The kernel libraries; each is loaded once and its functions looked up by name.
#[derive(Debug, Clone, Copy, PartialEq, Eq, Structural, Hash)]
pub enum Source {
    Affine,
    Indexing,
    Unary,
    Binary,
    Ternary,
    Cast,
    Reduce,
    Mfa,
    Conv,
    Random,
    Quantized,
}

impl View for Source {
    type V = Source;

    open spec fn view(&self) -> Source {
        *self
    }
}

impl CacheKey for Source {
    fn same_key(&self, other: &Source) -> (b: bool) {
        *self == *other
    }
}

/// How a library is brought in: `Mfa` ships precompiled, every other library is
/// compiled from its shader source.
#[derive(Debug, Clone, Copy, PartialEq, Eq, Structural)]
pub enum LibraryKind {
    Precompiled,
    ShaderSource,
}

pub open spec fn spec_library_kind(source: Source) -> LibraryKind {
    if source == Source::Mfa {
        LibraryKind::Precompiled
    } else {
        LibraryKind::ShaderSource
    }
}

pub fn library_kind(source: Source) -> (k: LibraryKind)
    ensures
        k == spec_library_kind(source),
{
    match source {
        Source::Mfa => LibraryKind::Precompiled,
        _ => LibraryKind::ShaderSource,
    }
}

} // verus!
