use vstd::prelude::*;
use crate::grid::{Size3, ceil_div, min_u64, least_power_of_two_at_least, linear_split, next_power_of_two};
use crate::pipeline::PipelineRequest;

verus! {

/// The buffers a kernel function is handed, by the part they play in it.
#[derive(Debug, Clone, Copy, PartialEq, Eq, Structural)]
pub enum BufferSlot {
    Input,
    Output,
    Left,
    Right,
    Cond,
    Ids,
    Seed,
    Lhs,
    Rhs,
}

/// How a kernel uses a buffer.
#[derive(Debug, Clone, Copy, PartialEq, Eq, Structural)]
pub enum Usage {
    Read,
    Write,
}

/// The 32-bit float arguments, which the caller passes in and the launch binds as given.
#[derive(Debug, Clone, Copy, PartialEq, Eq, Structural)]
pub enum FloatSlot {
    Mul,
    Add,
    Min,
    Max,
    Mean,
    Stddev,
    ScaleW,
    ScaleH,
}

/// One argument of a kernel function, bound at an index of the encoder.
#[derive(Debug, PartialEq, Eq)]
pub enum KernelArg {
    /// A `usize`, passed as its bytes.
    USize(usize),
    /// An `i64`, passed as its bytes.
    I64(i64),
    /// A `u32`, passed as its bytes.
    U32(u32),
    /// A list of extents or strides, passed as the bytes of the `usize` slice.
    Dims(Vec<usize>),
    /// A buffer, bound at the given byte offset.
    Buffer(BufferSlot, usize),
    /// A float argument of the call.
    Float(FloatSlot),
    /// Four `u64` byte strides (of A, B, C and D of a batched matrix product).
    BatchStrides(u64, u64, u64, u64),
}

/// A [`KernelArg`] with its list of extents seen as a sequence.
pub enum ArgView {
    USize(usize),
    I64(i64),
    U32(u32),
    Dims(Seq<usize>),
    Buffer(BufferSlot, usize),
    Float(FloatSlot),
    BatchStrides(u64, u64, u64, u64),
}

impl View for KernelArg {
    type V = ArgView;

    open spec fn view(&self) -> ArgView {
        match self {
            KernelArg::USize(v) => ArgView::USize(*v),
            KernelArg::I64(v) => ArgView::I64(*v),
            KernelArg::U32(v) => ArgView::U32(*v),
            KernelArg::Dims(d) => ArgView::Dims(d@),
            KernelArg::Buffer(b, o) => ArgView::Buffer(*b, *o),
            KernelArg::Float(f) => ArgView::Float(*f),
            KernelArg::BatchStrides(a, b, c, d) => ArgView::BatchStrides(*a, *b, *c, *d),
        }
    }
}

/// How the threads of a launch are grouped.
#[derive(Debug, Clone, Copy, PartialEq, Eq, Structural)]
pub enum Grid {
    /// One thread per element: a [`linear_split`] of this many threads.
    Linear(usize),
    /// One thread group per output element, each of the smallest power of two
    /// that is at least the lesser of `span` and the pipeline's group limit.
    PerOutput { outputs: usize, span: u64 },
    /// Group count and group size given outright.
    Fixed { groups: Size3, threads: Size3 },
}

/// The grid can be worked out for a pipeline whose groups hold at most `max_threads`.
pub open spec fn grid_fits(g: Grid, max_threads: u64) -> bool {
    match g {
        Grid::Linear(n) => max_threads > 0 && n > 0 && n + min_u64(max_threads, n as u64) <= u64::MAX,
        Grid::PerOutput { outputs, span } => min_u64(max_threads, span) <= 0x8000_0000_0000_0000u64,
        Grid::Fixed { .. } => true,
    }
}

/// (group count, group size) of the grid for a pipeline with group limit `max_threads`.
pub open spec fn grid_dims(g: Grid, max_threads: u64, r: (Size3, Size3)) -> bool {
    match g {
        Grid::Linear(n) => {
            let w = min_u64(max_threads, n as u64);
            &&& r.1 == (Size3 { width: w, height: 1, depth: 1 })
            &&& r.0 == (Size3 { width: ceil_div(n as int, w as int) as u64, height: 1, depth: 1 })
        },
        Grid::PerOutput { outputs, span } => {
            &&& r.0 == (Size3 { width: outputs as u64, height: 1, depth: 1 })
            &&& r.1.height == 1
            &&& r.1.depth == 1
            &&& least_power_of_two_at_least(min_u64(max_threads, span) as int, r.1.width as int)
        },
        Grid::Fixed { groups, threads } => r == (groups, threads),
    }
}

impl Grid {
    pub fn fits(&self, max_threads: u64) -> (b: bool)
        ensures
            b == grid_fits(*self, max_threads),
    {
        match self {
            Grid::Linear(n) => {
                let size: u64 = *n as u64;
                let w: u64 = if max_threads <= size { max_threads } else { size };
                max_threads > 0 && *n > 0 && size <= u64::MAX - w
            },
            Grid::PerOutput { outputs: _, span } => {
                let w: u64 = if max_threads <= *span { max_threads } else { *span };
                w <= 0x8000_0000_0000_0000u64
            },
            Grid::Fixed { .. } => true,
        }
    }

    /// (group count, group size) for a pipeline whose groups hold at most `max_threads`.
    pub fn dims(&self, max_threads: u64) -> (r: (Size3, Size3))
        requires
            grid_fits(*self, max_threads),
        ensures
            grid_dims(*self, max_threads, r),
    {
        match self {
            Grid::Linear(n) => linear_split(max_threads, *n),
            Grid::PerOutput { outputs, span } => {
                let w: u64 = if max_threads <= *span { max_threads } else { *span };
                let p: u64 = next_power_of_two(w);
                (Size3 { width: *outputs as u64, height: 1, depth: 1 }, Size3 { width: p, height: 1, depth: 1 })
            },
            Grid::Fixed { groups, threads } => (*groups, *threads),
        }
    }
}

/// Everything about a launch but its pipeline: arguments by index, the buffers it
/// uses and how, the threadgroup memory it asks for, and its grid.
#[derive(Debug)]
pub struct Launch {
    pub args: Vec<(u64, KernelArg)>,
    pub resources: Vec<(BufferSlot, Usage)>,
    pub threadgroup_memory: Option<u64>,
    pub grid: Grid,
}

/// A whole launch: the pipeline to run and how to run it.
#[derive(Debug)]
pub struct Dispatch {
    pub pipeline: PipelineRequest,
    pub launch: Launch,
}

pub open spec fn args_view(a: Seq<(u64, KernelArg)>) -> Seq<(u64, ArgView)> {
    a.map_values(|p: (u64, KernelArg)| (p.0, p.1@))
}

/// Arguments bound one after the other from index 0.
pub open spec fn in_order(s: Seq<ArgView>) -> Seq<(u64, ArgView)> {
    Seq::new(s.len(), |i: int| (i as u64, s[i]))
}

/// Binds `arg` at the next free index.
pub(crate) fn bind(args: &mut Vec<(u64, KernelArg)>, arg: KernelArg)
    requires
        old(args)@.len() < 64,
    ensures
        final(args)@ == old(args)@.push((old(args)@.len() as u64, arg)),
{
    let index: u64 = args.len() as u64;
    args.push((index, arg));
}

/// `d` runs function `name` of `source` without function constants, binds `args`
/// from index 0 on, uses `resources`, asks for no threadgroup memory and groups its
/// threads as `grid` says.
pub open spec fn plain_dispatch(
    d: Dispatch,
    source: crate::source::Source,
    name: &'static str,
    args: Seq<ArgView>,
    resources: Seq<(BufferSlot, Usage)>,
    grid: Grid,
) -> bool {
    &&& d.pipeline.source == source
    &&& d.pipeline.name == name
    &&& d.pipeline.constants is None
    &&& args_view(d.launch.args@) =~= in_order(args)
    &&& d.launch.resources@ =~= resources
    &&& d.launch.threadgroup_memory is None
    &&& d.launch.grid == grid
}

/// Reads `Input`, writes `Output`.
pub open spec fn input_to_output() -> Seq<(BufferSlot, Usage)> {
    seq![(BufferSlot::Input, Usage::Read), (BufferSlot::Output, Usage::Write)]
}

pub(crate) fn input_to_output_exec() -> (r: Vec<(BufferSlot, Usage)>)
    ensures
        r@ == input_to_output(),
{
    let mut r = Vec::new();
    r.push((BufferSlot::Input, Usage::Read));
    r.push((BufferSlot::Output, Usage::Write));
    r
}

} // verus!
