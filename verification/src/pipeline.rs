use vstd::prelude::*;
use crate::cache::CacheKey;
use crate::constants::ConstantValues;
use crate::source::Source;

verus! {

pub open spec fn constants_view(c: Option<ConstantValues>) -> Option<Seq<(usize, crate::constants::Value)>> {
    match c {
        Some(c) => Some(c@),
        None => None,
    }
}

/// The pipeline a launch runs: function `name` of library `source`, specialised
/// with `constants` where there are any.
#[derive(Debug)]
pub struct PipelineRequest {
    pub source: Source,
    pub name: &'static str,
    pub constants: Option<ConstantValues>,
}

/// What a built pipeline is cached under: the function's name and its constants.
#[derive(Debug)]
pub struct PipelineKey {
    pub name: String,
    pub constants: Option<ConstantValues>,
}

impl View for PipelineKey {
    type V = (Seq<char>, Option<Seq<(usize, crate::constants::Value)>>);

    open spec fn view(&self) -> Self::V {
        (self.name@, constants_view(self.constants))
    }
}

impl PipelineKey {
    pub fn new(name: &str, constants: Option<ConstantValues>) -> (k: PipelineKey)
        ensures
            k@ == (name@, constants_view(constants)),
            k.constants == constants,
    {
        PipelineKey { name: name.to_owned(), constants }
    }
}

impl CacheKey for PipelineKey {
    fn same_key(&self, other: &PipelineKey) -> (b: bool) {
        if self.name != other.name {
            return false;
        }
        match (&self.constants, &other.constants) {
            (Some(a), Some(b)) => a.same(b),
            (None, None) => true,
            _ => false,
        }
    }
}

} // verus!
