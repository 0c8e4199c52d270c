use vstd::prelude::*;
use crate::launch::{
    ArgView, BufferSlot, Dispatch, FloatSlot, Grid, KernelArg, Launch, Usage, bind, input_to_output,
    input_to_output_exec, plain_dispatch,
};
use crate::pipeline::PipelineRequest;
use crate::shape::{dims_product, product_fits, range_product, shape_elements};
use crate::source::Source;

verus! {

fn plain(
    source: Source,
    name: &'static str,
    args: Vec<(u64, KernelArg)>,
    resources: Vec<(BufferSlot, Usage)>,
    grid: Grid,
) -> (d: Dispatch)
    ensures
        d.pipeline.source == source,
        d.pipeline.name == name,
        d.pipeline.constants is None,
        d.launch.args == args,
        d.launch.resources == resources,
        d.launch.threadgroup_memory is None,
        d.launch.grid == grid,
{
    Dispatch {
        pipeline: PipelineRequest { source, name, constants: None },
        launch: Launch { args, resources, threadgroup_memory: None, grid },
    }
}

fn dims(s: &[usize]) -> (k: KernelArg)
    ensures
        k@ == ArgView::Dims(s@),
{
    KernelArg::Dims(vstd::slice::slice_to_vec(s))
}

/// Reads `Left` and `Right`, writes `Output`.
pub open spec fn two_inputs_to_output() -> Seq<(BufferSlot, Usage)> {
    seq![(BufferSlot::Left, Usage::Read), (BufferSlot::Right, Usage::Read), (BufferSlot::Output, Usage::Write)]
}

fn two_inputs_to_output_exec() -> (r: Vec<(BufferSlot, Usage)>)
    ensures
        r@ == two_inputs_to_output(),
{
    let mut r = Vec::new();
    r.push((BufferSlot::Left, Usage::Read));
    r.push((BufferSlot::Right, Usage::Read));
    r.push((BufferSlot::Output, Usage::Write));
    r
}

/// Reads `Input` and `Ids`, writes `Output`.
pub open spec fn indexed_to_output() -> Seq<(BufferSlot, Usage)> {
    seq![(BufferSlot::Input, Usage::Read), (BufferSlot::Ids, Usage::Read), (BufferSlot::Output, Usage::Write)]
}

fn indexed_to_output_exec() -> (r: Vec<(BufferSlot, Usage)>)
    ensures
        r@ == indexed_to_output(),
{
    let mut r = Vec::new();
    r.push((BufferSlot::Input, Usage::Read));
    r.push((BufferSlot::Ids, Usage::Read));
    r.push((BufferSlot::Output, Usage::Write));
    r
}

/// Reads and updates the `Seed`, writes `Output`.
pub open spec fn seeded_to_output() -> Seq<(BufferSlot, Usage)> {
    seq![(BufferSlot::Seed, Usage::Read), (BufferSlot::Seed, Usage::Write), (BufferSlot::Output, Usage::Write)]
}

fn seeded_to_output_exec() -> (r: Vec<(BufferSlot, Usage)>)
    ensures
        r@ == seeded_to_output(),
{
    let mut r = Vec::new();
    r.push((BufferSlot::Seed, Usage::Read));
    r.push((BufferSlot::Seed, Usage::Write));
    r.push((BufferSlot::Output, Usage::Write));
    r
}

/// An element-wise unary kernel over `length` contiguous elements.
pub fn unary_contiguous(kernel: &'static str, length: usize) -> (d: Dispatch)
    ensures
        plain_dispatch(
            d,
            Source::Unary,
            kernel,
            seq![ArgView::USize(length), ArgView::Buffer(BufferSlot::Input, 0), ArgView::Buffer(BufferSlot::Output, 0)],
            input_to_output(),
            Grid::Linear(length),
        ),
{
    let mut args = Vec::new();
    bind(&mut args, KernelArg::USize(length));
    bind(&mut args, KernelArg::Buffer(BufferSlot::Input, 0));
    bind(&mut args, KernelArg::Buffer(BufferSlot::Output, 0));
    plain(Source::Unary, kernel, args, input_to_output_exec(), Grid::Linear(length))
}

/// An element-wise unary kernel over a strided input of the given shape.
pub fn unary_strided(
    kernel: &'static str,
    shape: &[usize],
    strides: &[usize],
    offset: usize,
    output_offset: usize,
) -> (d: Dispatch)
    requires
        product_fits(shape@),
    ensures
        plain_dispatch(
            d,
            Source::Unary,
            kernel,
            seq![
                ArgView::USize(dims_product(shape@) as usize),
                ArgView::USize(shape@.len() as usize),
                ArgView::Dims(shape@),
                ArgView::Dims(strides@),
                ArgView::Buffer(BufferSlot::Input, offset),
                ArgView::Buffer(BufferSlot::Output, output_offset),
            ],
            input_to_output(),
            Grid::Linear(dims_product(shape@) as usize),
        ),
{
    let length = shape_elements(shape);
    let mut args = Vec::new();
    bind(&mut args, KernelArg::USize(length));
    bind(&mut args, KernelArg::USize(shape.len()));
    bind(&mut args, dims(shape));
    bind(&mut args, dims(strides));
    bind(&mut args, KernelArg::Buffer(BufferSlot::Input, offset));
    bind(&mut args, KernelArg::Buffer(BufferSlot::Output, output_offset));
    plain(Source::Unary, kernel, args, input_to_output_exec(), Grid::Linear(length))
}

/// An element-wise binary kernel over `length` contiguous elements.
pub fn binary_contiguous(kernel: &'static str, length: usize) -> (d: Dispatch)
    ensures
        plain_dispatch(
            d,
            Source::Binary,
            kernel,
            seq![
                ArgView::USize(length),
                ArgView::Buffer(BufferSlot::Left, 0),
                ArgView::Buffer(BufferSlot::Right, 0),
                ArgView::Buffer(BufferSlot::Output, 0),
            ],
            two_inputs_to_output(),
            Grid::Linear(length),
        ),
{
    let mut args = Vec::new();
    bind(&mut args, KernelArg::USize(length));
    bind(&mut args, KernelArg::Buffer(BufferSlot::Left, 0));
    bind(&mut args, KernelArg::Buffer(BufferSlot::Right, 0));
    bind(&mut args, KernelArg::Buffer(BufferSlot::Output, 0));
    plain(Source::Binary, kernel, args, two_inputs_to_output_exec(), Grid::Linear(length))
}

/// An element-wise binary kernel over two strided inputs of the given shape.
pub fn binary_strided(
    kernel: &'static str,
    shape: &[usize],
    left_strides: &[usize],
    left_offset: usize,
    right_strides: &[usize],
    right_offset: usize,
) -> (d: Dispatch)
    requires
        product_fits(shape@),
    ensures
        plain_dispatch(
            d,
            Source::Binary,
            kernel,
            seq![
                ArgView::USize(dims_product(shape@) as usize),
                ArgView::USize(shape@.len() as usize),
                ArgView::Dims(shape@),
                ArgView::Dims(left_strides@),
                ArgView::Dims(right_strides@),
                ArgView::Buffer(BufferSlot::Left, left_offset),
                ArgView::Buffer(BufferSlot::Right, right_offset),
                ArgView::Buffer(BufferSlot::Output, 0),
            ],
            two_inputs_to_output(),
            Grid::Linear(dims_product(shape@) as usize),
        ),
{
    let length = shape_elements(shape);
    let mut args = Vec::new();
    bind(&mut args, KernelArg::USize(length));
    bind(&mut args, KernelArg::USize(shape.len()));
    bind(&mut args, dims(shape));
    bind(&mut args, dims(left_strides));
    bind(&mut args, dims(right_strides));
    bind(&mut args, KernelArg::Buffer(BufferSlot::Left, left_offset));
    bind(&mut args, KernelArg::Buffer(BufferSlot::Right, right_offset));
    bind(&mut args, KernelArg::Buffer(BufferSlot::Output, 0));
    plain(Source::Binary, kernel, args, two_inputs_to_output_exec(), Grid::Linear(length))
}

/// A cast of `length` contiguous elements starting at `input_offset`.
pub fn cast_contiguous(kernel: &'static str, length: usize, input_offset: usize) -> (d: Dispatch)
    ensures
        plain_dispatch(
            d,
            Source::Cast,
            kernel,
            seq![
                ArgView::USize(length),
                ArgView::Buffer(BufferSlot::Input, input_offset),
                ArgView::Buffer(BufferSlot::Output, 0),
            ],
            input_to_output(),
            Grid::Linear(length),
        ),
{
    let mut args = Vec::new();
    bind(&mut args, KernelArg::USize(length));
    bind(&mut args, KernelArg::Buffer(BufferSlot::Input, input_offset));
    bind(&mut args, KernelArg::Buffer(BufferSlot::Output, 0));
    plain(Source::Cast, kernel, args, input_to_output_exec(), Grid::Linear(length))
}

/// A cast of a strided input of the given shape.
pub fn cast_strided(kernel: &'static str, shape: &[usize], input_strides: &[usize], input_offset: usize) -> (d: Dispatch)
    requires
        product_fits(shape@),
    ensures
        plain_dispatch(
            d,
            Source::Cast,
            kernel,
            seq![
                ArgView::USize(dims_product(shape@) as usize),
                ArgView::USize(shape@.len() as usize),
                ArgView::Dims(shape@),
                ArgView::Dims(input_strides@),
                ArgView::Buffer(BufferSlot::Input, input_offset),
                ArgView::Buffer(BufferSlot::Output, 0),
            ],
            input_to_output(),
            Grid::Linear(dims_product(shape@) as usize),
        ),
{
    let length = shape_elements(shape);
    let mut args = Vec::new();
    bind(&mut args, KernelArg::USize(length));
    bind(&mut args, KernelArg::USize(shape.len()));
    bind(&mut args, dims(shape));
    bind(&mut args, dims(input_strides));
    bind(&mut args, KernelArg::Buffer(BufferSlot::Input, input_offset));
    bind(&mut args, KernelArg::Buffer(BufferSlot::Output, 0));
    plain(Source::Cast, kernel, args, input_to_output_exec(), Grid::Linear(length))
}

/// A reduction of `length` contiguous elements into `out_length` results, each over
/// `length / out_length` consecutive elements; one group per result, sized by half
/// the elements it reduces.
pub fn reduce_contiguous(kernel: &'static str, length: usize, out_length: usize, input_offset: usize) -> (d: Dispatch)
    requires
        out_length > 0,
        length / out_length + 2 <= u64::MAX,
    ensures
        plain_dispatch(
            d,
            Source::Reduce,
            kernel,
            seq![
                ArgView::USize(length),
                ArgView::USize(length / out_length),
                ArgView::Buffer(BufferSlot::Input, input_offset),
                ArgView::Buffer(BufferSlot::Output, 0),
            ],
            input_to_output(),
            Grid::PerOutput { outputs: out_length, span: ((length / out_length + 1) / 2) as u64 },
        ),
{
    let elements_to_sum = length / out_length;
    let mut args = Vec::new();
    bind(&mut args, KernelArg::USize(length));
    bind(&mut args, KernelArg::USize(elements_to_sum));
    bind(&mut args, KernelArg::Buffer(BufferSlot::Input, input_offset));
    bind(&mut args, KernelArg::Buffer(BufferSlot::Output, 0));
    let span: u64 = (elements_to_sum as u64 + 2 - 1) / 2;
    plain(Source::Reduce, kernel, args, input_to_output_exec(), Grid::PerOutput { outputs: out_length, span })
}

/// A reduction of a strided input of the given shape into `out_length` results, each
/// over `elements / out_length` elements; one group per result.
pub fn reduce_strided(
    kernel: &'static str,
    shape: &[usize],
    strides: &[usize],
    out_length: usize,
    input_offset: usize,
) -> (d: Dispatch)
    requires
        product_fits(shape@),
        out_length > 0,
    ensures
        plain_dispatch(
            d,
            Source::Reduce,
            kernel,
            seq![
                ArgView::USize(shape@.len() as usize),
                ArgView::Dims(shape@),
                ArgView::Dims(strides@),
                ArgView::USize((dims_product(shape@) / out_length as int) as usize),
                ArgView::Buffer(BufferSlot::Input, input_offset),
                ArgView::Buffer(BufferSlot::Output, 0),
            ],
            input_to_output(),
            Grid::PerOutput { outputs: out_length, span: (dims_product(shape@) / out_length as int) as u64 },
        ),
{
    let length = shape_elements(shape);
    let elements_to_sum = length / out_length;
    let mut args = Vec::new();
    bind(&mut args, KernelArg::USize(shape.len()));
    bind(&mut args, dims(shape));
    bind(&mut args, dims(strides));
    bind(&mut args, KernelArg::USize(elements_to_sum));
    bind(&mut args, KernelArg::Buffer(BufferSlot::Input, input_offset));
    bind(&mut args, KernelArg::Buffer(BufferSlot::Output, 0));
    plain(
        Source::Reduce,
        kernel,
        args,
        input_to_output_exec(),
        Grid::PerOutput { outputs: out_length, span: elements_to_sum as u64 },
    )
}

/// A softmax over the last dimension: rows of `elements_to_sum` elements, one group per row.
pub fn last_softmax(kernel: &'static str, length: usize, elements_to_sum: usize, input_offset: usize) -> (d: Dispatch)
    requires
        elements_to_sum > 0,
    ensures
        plain_dispatch(
            d,
            Source::Reduce,
            kernel,
            seq![
                ArgView::USize(length),
                ArgView::USize(elements_to_sum),
                ArgView::Buffer(BufferSlot::Input, input_offset),
                ArgView::Buffer(BufferSlot::Output, 0),
            ],
            input_to_output(),
            Grid::PerOutput { outputs: length / elements_to_sum, span: elements_to_sum as u64 },
        ),
{
    let mut args = Vec::new();
    bind(&mut args, KernelArg::USize(length));
    bind(&mut args, KernelArg::USize(elements_to_sum));
    bind(&mut args, KernelArg::Buffer(BufferSlot::Input, input_offset));
    bind(&mut args, KernelArg::Buffer(BufferSlot::Output, 0));
    let out_length = length / elements_to_sum;
    plain(
        Source::Reduce,
        kernel,
        args,
        input_to_output_exec(),
        Grid::PerOutput { outputs: out_length, span: elements_to_sum as u64 },
    )
}

/// `x * mul + add` over `size` contiguous elements.
pub fn affine(kernel: &'static str, size: usize) -> (d: Dispatch)
    ensures
        plain_dispatch(
            d,
            Source::Affine,
            kernel,
            seq![
                ArgView::USize(size),
                ArgView::Float(FloatSlot::Mul),
                ArgView::Float(FloatSlot::Add),
                ArgView::Buffer(BufferSlot::Input, 0),
                ArgView::Buffer(BufferSlot::Output, 0),
            ],
            input_to_output(),
            Grid::Linear(size),
        ),
{
    let mut args = Vec::new();
    bind(&mut args, KernelArg::USize(size));
    bind(&mut args, KernelArg::Float(FloatSlot::Mul));
    bind(&mut args, KernelArg::Float(FloatSlot::Add));
    bind(&mut args, KernelArg::Buffer(BufferSlot::Input, 0));
    bind(&mut args, KernelArg::Buffer(BufferSlot::Output, 0));
    plain(Source::Affine, kernel, args, input_to_output_exec(), Grid::Linear(size))
}

/// `x * mul + add` over a strided input of the given shape.
pub fn affine_strided(kernel: &'static str, shape: &[usize], input_stride: &[usize], input_offset: usize) -> (d: Dispatch)
    requires
        product_fits(shape@),
    ensures
        plain_dispatch(
            d,
            Source::Affine,
            kernel,
            seq![
                ArgView::USize(dims_product(shape@) as usize),
                ArgView::USize(shape@.len() as usize),
                ArgView::Dims(shape@),
                ArgView::Dims(input_stride@),
                ArgView::Float(FloatSlot::Mul),
                ArgView::Float(FloatSlot::Add),
                ArgView::Buffer(BufferSlot::Input, input_offset),
                ArgView::Buffer(BufferSlot::Output, 0),
            ],
            input_to_output(),
            Grid::Linear(dims_product(shape@) as usize),
        ),
{
    let size = shape_elements(shape);
    let mut args = Vec::new();
    bind(&mut args, KernelArg::USize(size));
    bind(&mut args, KernelArg::USize(shape.len()));
    bind(&mut args, dims(shape));
    bind(&mut args, dims(input_stride));
    bind(&mut args, KernelArg::Float(FloatSlot::Mul));
    bind(&mut args, KernelArg::Float(FloatSlot::Add));
    bind(&mut args, KernelArg::Buffer(BufferSlot::Input, input_offset));
    bind(&mut args, KernelArg::Buffer(BufferSlot::Output, 0));
    plain(Source::Affine, kernel, args, input_to_output_exec(), Grid::Linear(size))
}

/// A kernel of the affine library with one float parameter (`powf`, `elu`) over
/// `size` contiguous elements.
pub fn scaled(kernel: &'static str, size: usize) -> (d: Dispatch)
    ensures
        plain_dispatch(
            d,
            Source::Affine,
            kernel,
            seq![
                ArgView::USize(size),
                ArgView::Float(FloatSlot::Mul),
                ArgView::Buffer(BufferSlot::Input, 0),
                ArgView::Buffer(BufferSlot::Output, 0),
            ],
            input_to_output(),
            Grid::Linear(size),
        ),
{
    let mut args = Vec::new();
    bind(&mut args, KernelArg::USize(size));
    bind(&mut args, KernelArg::Float(FloatSlot::Mul));
    bind(&mut args, KernelArg::Buffer(BufferSlot::Input, 0));
    bind(&mut args, KernelArg::Buffer(BufferSlot::Output, 0));
    plain(Source::Affine, kernel, args, input_to_output_exec(), Grid::Linear(size))
}

/// A kernel of the affine library with one float parameter (`powf`, `elu`) over a
/// strided input of the given shape.
pub fn scaled_strided(kernel: &'static str, shape: &[usize], input_stride: &[usize], input_offset: usize) -> (d: Dispatch)
    requires
        product_fits(shape@),
    ensures
        plain_dispatch(
            d,
            Source::Affine,
            kernel,
            seq![
                ArgView::USize(dims_product(shape@) as usize),
                ArgView::USize(shape@.len() as usize),
                ArgView::Dims(shape@),
                ArgView::Dims(input_stride@),
                ArgView::Float(FloatSlot::Mul),
                ArgView::Buffer(BufferSlot::Input, input_offset),
                ArgView::Buffer(BufferSlot::Output, 0),
            ],
            input_to_output(),
            Grid::Linear(dims_product(shape@) as usize),
        ),
{
    let size = shape_elements(shape);
    let mut args = Vec::new();
    bind(&mut args, KernelArg::USize(size));
    bind(&mut args, KernelArg::USize(shape.len()));
    bind(&mut args, dims(shape));
    bind(&mut args, dims(input_stride));
    bind(&mut args, KernelArg::Float(FloatSlot::Mul));
    bind(&mut args, KernelArg::Buffer(BufferSlot::Input, input_offset));
    bind(&mut args, KernelArg::Buffer(BufferSlot::Output, 0));
    plain(Source::Affine, kernel, args, input_to_output_exec(), Grid::Linear(size))
}

/// Selects, element by element, from `Left` where the condition holds and from
/// `Right` where it does not; all three inputs strided, of the given shape.
pub fn where_cond_strided(
    kernel: &'static str,
    shape: &[usize],
    cond: (&[usize], usize),
    left: (&[usize], usize),
    right: (&[usize], usize),
) -> (d: Dispatch)
    requires
        product_fits(shape@),
    ensures
        plain_dispatch(
            d,
            Source::Ternary,
            kernel,
            seq![
                ArgView::USize(dims_product(shape@) as usize),
                ArgView::USize(shape@.len() as usize),
                ArgView::Dims(shape@),
                ArgView::Dims(cond.0@),
                ArgView::Dims(left.0@),
                ArgView::Dims(right.0@),
                ArgView::Buffer(BufferSlot::Cond, cond.1),
                ArgView::Buffer(BufferSlot::Left, left.1),
                ArgView::Buffer(BufferSlot::Right, right.1),
                ArgView::Buffer(BufferSlot::Output, 0),
            ],
            seq![
                (BufferSlot::Cond, Usage::Read),
                (BufferSlot::Left, Usage::Read),
                (BufferSlot::Right, Usage::Read),
                (BufferSlot::Output, Usage::Write),
            ],
            Grid::Linear(dims_product(shape@) as usize),
        ),
{
    let (cond_stride, cond_offset) = cond;
    let (left_stride, left_offset) = left;
    let (right_stride, right_offset) = right;
    let size = shape_elements(shape);
    let rank = shape.len();
    let mut args = Vec::new();
    bind(&mut args, KernelArg::USize(size));
    bind(&mut args, KernelArg::USize(rank));
    bind(&mut args, dims(shape));
    bind(&mut args, dims(cond_stride));
    bind(&mut args, dims(left_stride));
    bind(&mut args, dims(right_stride));
    bind(&mut args, KernelArg::Buffer(BufferSlot::Cond, cond_offset));
    bind(&mut args, KernelArg::Buffer(BufferSlot::Left, left_offset));
    bind(&mut args, KernelArg::Buffer(BufferSlot::Right, right_offset));
    bind(&mut args, KernelArg::Buffer(BufferSlot::Output, 0));
    let mut resources = Vec::new();
    resources.push((BufferSlot::Cond, Usage::Read));
    resources.push((BufferSlot::Left, Usage::Read));
    resources.push((BufferSlot::Right, Usage::Read));
    resources.push((BufferSlot::Output, Usage::Write));
    plain(Source::Ternary, kernel, args, resources, Grid::Linear(size))
}

/// Elements before dimension `dim`: the number of outer slices.
pub open spec fn left_size(shape: Seq<usize>, dim: int) -> int {
    dims_product(shape.subrange(0, dim))
}

/// Elements after dimension `dim`: the size of one inner slice.
pub open spec fn right_size(shape: Seq<usize>, dim: int) -> int {
    dims_product(shape.subrange(dim + 1, shape.len() as int))
}

/// The outer and inner sizes around `dim` can be taken without overflow.
pub open spec fn split_fits(shape: Seq<usize>, dim: int) -> bool {
    &&& 0 <= dim < shape.len()
    &&& product_fits(shape.subrange(0, dim))
    &&& product_fits(shape.subrange(dim + 1, shape.len() as int))
}

/// The outer size, the extent of `dim` and the inner size together account for
/// every element of the shape.
pub proof fn lemma_split_covers_shape(shape: Seq<usize>, dim: int)
    requires
        0 <= dim < shape.len(),
    ensures
        left_size(shape, dim) * shape[dim] * right_size(shape, dim) == dims_product(shape),
{
    crate::shape::lemma_split_product(shape, dim);
}

fn split_at_dim(shape: &[usize], dim: usize) -> (r: (usize, usize, usize))
    requires
        split_fits(shape@, dim as int),
    ensures
        r.0 == left_size(shape@, dim as int),
        r.1 == shape@[dim as int],
        r.2 == right_size(shape@, dim as int),
{
    let n = shape.len();
    let left = range_product(shape, 0, dim);
    let right = range_product(shape, dim + 1, n);
    (left, shape[dim], right)
}

/// Picks `ids_size` slices along `dim` of an input of the given shape.
pub fn index_select(kernel: &'static str, shape: &[usize], ids_size: usize, dim: usize) -> (d: Dispatch)
    requires
        split_fits(shape@, dim as int),
        ids_size * left_size(shape@, dim as int) <= usize::MAX,
        ids_size * left_size(shape@, dim as int) * right_size(shape@, dim as int) <= usize::MAX,
    ensures
        ({
            let l = left_size(shape@, dim as int);
            let r = right_size(shape@, dim as int);
            let dst_el = (ids_size * l * r) as usize;
            plain_dispatch(
                d,
                Source::Indexing,
                kernel,
                seq![
                    ArgView::USize(dst_el),
                    ArgView::USize(l as usize),
                    ArgView::USize(shape@[dim as int]),
                    ArgView::USize(r as usize),
                    ArgView::USize(ids_size),
                    ArgView::Buffer(BufferSlot::Input, 0),
                    ArgView::Buffer(BufferSlot::Ids, 0),
                    ArgView::Buffer(BufferSlot::Output, 0),
                ],
                indexed_to_output(),
                Grid::Linear(dst_el),
            )
        }),
{
    let (left_size, src_dim_size, right_size) = split_at_dim(shape, dim);
    let dst_el = ids_size * left_size * right_size;
    let mut args = Vec::new();
    bind(&mut args, KernelArg::USize(dst_el));
    bind(&mut args, KernelArg::USize(left_size));
    bind(&mut args, KernelArg::USize(src_dim_size));
    bind(&mut args, KernelArg::USize(right_size));
    bind(&mut args, KernelArg::USize(ids_size));
    bind(&mut args, KernelArg::Buffer(BufferSlot::Input, 0));
    bind(&mut args, KernelArg::Buffer(BufferSlot::Ids, 0));
    bind(&mut args, KernelArg::Buffer(BufferSlot::Output, 0));
    plain(Source::Indexing, kernel, args, indexed_to_output_exec(), Grid::Linear(dst_el))
}

/// Gathers along `dim` by `ids_size` indices per slice, input and indices at offsets.
pub fn gather(
    kernel: &'static str,
    shape: &[usize],
    ids_size: usize,
    dim: usize,
    input_offset: usize,
    ids_offset: usize,
) -> (d: Dispatch)
    requires
        split_fits(shape@, dim as int),
        ids_size * left_size(shape@, dim as int) <= usize::MAX,
        ids_size * left_size(shape@, dim as int) * right_size(shape@, dim as int) <= usize::MAX,
    ensures
        ({
            let l = left_size(shape@, dim as int);
            let r = right_size(shape@, dim as int);
            let dst_el = (ids_size * l * r) as usize;
            plain_dispatch(
                d,
                Source::Indexing,
                kernel,
                seq![
                    ArgView::USize(dst_el),
                    ArgView::USize(l as usize),
                    ArgView::USize(shape@[dim as int]),
                    ArgView::USize(r as usize),
                    ArgView::USize(ids_size),
                    ArgView::Buffer(BufferSlot::Input, input_offset),
                    ArgView::Buffer(BufferSlot::Ids, ids_offset),
                    ArgView::Buffer(BufferSlot::Output, 0),
                ],
                indexed_to_output(),
                Grid::Linear(dst_el),
            )
        }),
{
    let (left_size, src_dim_size, right_size) = split_at_dim(shape, dim);
    let dst_el = ids_size * left_size * right_size;
    let mut args = Vec::new();
    bind(&mut args, KernelArg::USize(dst_el));
    bind(&mut args, KernelArg::USize(left_size));
    bind(&mut args, KernelArg::USize(src_dim_size));
    bind(&mut args, KernelArg::USize(right_size));
    bind(&mut args, KernelArg::USize(ids_size));
    bind(&mut args, KernelArg::Buffer(BufferSlot::Input, input_offset));
    bind(&mut args, KernelArg::Buffer(BufferSlot::Ids, ids_offset));
    bind(&mut args, KernelArg::Buffer(BufferSlot::Output, 0));
    plain(Source::Indexing, kernel, args, indexed_to_output_exec(), Grid::Linear(dst_el))
}

/// Adds the input, slice by slice along `dim`, into the output at the positions the
/// indices give; one thread per (outer, inner) position.
pub fn scatter_add(
    kernel: &'static str,
    src_shape: &[usize],
    dst_shape: &[usize],
    dim: usize,
    input_offset: usize,
    ids_offset: usize,
) -> (d: Dispatch)
    requires
        split_fits(src_shape@, dim as int),
        left_size(src_shape@, dim as int) * right_size(src_shape@, dim as int) <= usize::MAX,
        dim < dst_shape@.len(),
    ensures
        ({
            let l = left_size(src_shape@, dim as int);
            let r = right_size(src_shape@, dim as int);
            let dst_el = (l * r) as usize;
            plain_dispatch(
                d,
                Source::Indexing,
                kernel,
                seq![
                    ArgView::USize(dst_el),
                    ArgView::USize(l as usize),
                    ArgView::USize(src_shape@[dim as int]),
                    ArgView::USize(r as usize),
                    ArgView::USize(dst_shape@[dim as int]),
                    ArgView::Buffer(BufferSlot::Input, input_offset),
                    ArgView::Buffer(BufferSlot::Ids, ids_offset),
                    ArgView::Buffer(BufferSlot::Output, 0),
                ],
                indexed_to_output(),
                Grid::Linear(dst_el),
            )
        }),
{
    let (left_size, src_dim_size, right_size) = split_at_dim(src_shape, dim);
    let dst_el = left_size * right_size;
    let dst_dim_size = dst_shape[dim];
    let mut args = Vec::new();
    bind(&mut args, KernelArg::USize(dst_el));
    bind(&mut args, KernelArg::USize(left_size));
    bind(&mut args, KernelArg::USize(src_dim_size));
    bind(&mut args, KernelArg::USize(right_size));
    bind(&mut args, KernelArg::USize(dst_dim_size));
    bind(&mut args, KernelArg::Buffer(BufferSlot::Input, input_offset));
    bind(&mut args, KernelArg::Buffer(BufferSlot::Ids, ids_offset));
    bind(&mut args, KernelArg::Buffer(BufferSlot::Output, 0));
    plain(Source::Indexing, kernel, args, indexed_to_output_exec(), Grid::Linear(dst_el))
}

/// Adds whole slices of the input along `dim` into the output at the indices given;
/// one thread per (outer, inner) position.
pub fn index_add(
    kernel: &'static str,
    src_shape: &[usize],
    dst_shape: &[usize],
    ids_shape: &[usize],
    dim: usize,
    input_offset: usize,
    ids_offset: usize,
) -> (d: Dispatch)
    requires
        split_fits(src_shape@, dim as int),
        left_size(src_shape@, dim as int) * right_size(src_shape@, dim as int) <= usize::MAX,
        dim < dst_shape@.len(),
        ids_shape@.len() >= 1,
    ensures
        ({
            let l = left_size(src_shape@, dim as int);
            let r = right_size(src_shape@, dim as int);
            let dst_el = (l * r) as usize;
            plain_dispatch(
                d,
                Source::Indexing,
                kernel,
                seq![
                    ArgView::USize(dst_el),
                    ArgView::USize(l as usize),
                    ArgView::USize(src_shape@[dim as int]),
                    ArgView::USize(r as usize),
                    ArgView::USize(dst_shape@[dim as int]),
                    ArgView::USize(ids_shape@[0]),
                    ArgView::Buffer(BufferSlot::Input, input_offset),
                    ArgView::Buffer(BufferSlot::Ids, ids_offset),
                    ArgView::Buffer(BufferSlot::Output, 0),
                ],
                indexed_to_output(),
                Grid::Linear(dst_el),
            )
        }),
{
    let (left_size, src_dim_size, right_size) = split_at_dim(src_shape, dim);
    let dst_el = left_size * right_size;
    let dst_dim_size = dst_shape[dim];
    let ids_dim_size = ids_shape[0];
    let mut args = Vec::new();
    bind(&mut args, KernelArg::USize(dst_el));
    bind(&mut args, KernelArg::USize(left_size));
    bind(&mut args, KernelArg::USize(src_dim_size));
    bind(&mut args, KernelArg::USize(right_size));
    bind(&mut args, KernelArg::USize(dst_dim_size));
    bind(&mut args, KernelArg::USize(ids_dim_size));
    bind(&mut args, KernelArg::Buffer(BufferSlot::Input, input_offset));
    bind(&mut args, KernelArg::Buffer(BufferSlot::Ids, ids_offset));
    bind(&mut args, KernelArg::Buffer(BufferSlot::Output, 0));
    plain(Source::Indexing, kernel, args, indexed_to_output_exec(), Grid::Linear(dst_el))
}

/// Output length of a convolution window sliding over `len` elements: `padding` on
/// both sides, kernel of `k` taps `dilation` apart, moved `stride` at a time.
pub open spec fn conv_out_len(len: int, k: int, stride: int, padding: int, dilation: int) -> int {
    (len + 2 * padding - dilation * (k - 1) - 1) / stride + 1
}

/// The output length can be computed without overflow and the window fits the
/// padded input.
pub open spec fn conv_out_fits(len: usize, k: usize, stride: usize, padding: usize, dilation: usize) -> bool {
    &&& stride > 0
    &&& k >= 1
    &&& 2 * padding <= usize::MAX
    &&& len + 2 * padding <= usize::MAX
    &&& dilation * (k - 1) <= usize::MAX
    &&& len + 2 * padding >= dilation * (k - 1) + 1
}

fn out_len(len: usize, k: usize, stride: usize, padding: usize, dilation: usize) -> (r: usize)
    requires
        conv_out_fits(len, k, stride, padding, dilation),
    ensures
        r == conv_out_len(len as int, k as int, stride as int, padding as int, dilation as int),
{
    let span: usize = len + 2 * padding - dilation * (k - 1) - 1;
    assert(span / stride <= span) by (nonlinear_arith)
        requires
            stride > 0,
            span >= 0,
    ;
    span / stride + 1
}

/// The output length counts every position of the window: the last window still
/// ends inside the padded input, and one more step would end past it.
pub proof fn lemma_conv_out_len_counts_windows(len: usize, k: usize, stride: usize, padding: usize, dilation: usize)
    requires
        conv_out_fits(len, k, stride, padding, dilation),
    ensures
        ({
            let l = conv_out_len(len as int, k as int, stride as int, padding as int, dilation as int);
            let reach = dilation * (k - 1) + 1;
            &&& l >= 1
            &&& (l - 1) * stride + reach <= len + 2 * padding
            &&& len + 2 * padding < l * stride + reach
        }),
{
    let span: int = len + 2 * padding - dilation * (k - 1) - 1;
    let q = span / (stride as int);
    let r = span % (stride as int);
    vstd::arithmetic::div_mod::lemma_fundamental_div_mod(span, stride as int);
    vstd::arithmetic::div_mod::lemma_mod_bound(span, stride as int);
    vstd::arithmetic::div_mod::lemma_div_pos_is_pos(span, stride as int);
    assert(q * stride == stride * q) by (nonlinear_arith);
    assert((q + 1) * stride == q * stride + stride) by (nonlinear_arith);
}

/// `a * b * c * d`, multiplied from the left, never exceeds a `usize`.
pub open spec fn product4_fits(a: int, b: int, c: int, d: int) -> bool {
    &&& a * b <= usize::MAX
    &&& a * b * c <= usize::MAX
    &&& a * b * c * d <= usize::MAX
}

/// Unfolds a 1-d input `(batch, channels, length)` into its convolution windows:
/// one row of `k_size` taps per output position and channel.
pub fn im2col1d_strided(
    kernel: &'static str,
    shape: &[usize],
    strides: &[usize],
    conv: (usize, usize, usize, usize),
    input_offset: usize,
) -> (d: Dispatch)
    requires
        shape@.len() >= 3,
        conv_out_fits(shape@[2], conv.0, conv.1, conv.2, conv.3),
        product4_fits(
            shape@[0] as int,
            conv_out_len(shape@[2] as int, conv.0 as int, conv.1 as int, conv.2 as int, conv.3 as int),
            shape@[1] as int,
            conv.0 as int,
        ),
    ensures
        ({
            let (k_size, stride, padding, dilation) = conv;
            let l_out = conv_out_len(shape@[2] as int, k_size as int, stride as int, padding as int, dilation as int);
            let dst_el = (shape@[0] * l_out * shape@[1] * k_size) as usize;
            plain_dispatch(
                d,
                Source::Conv,
                kernel,
                seq![
                    ArgView::USize(dst_el),
                    ArgView::USize(l_out as usize),
                    ArgView::USize(k_size),
                    ArgView::USize(stride),
                    ArgView::USize(padding),
                    ArgView::USize(dilation),
                    ArgView::Dims(shape@),
                    ArgView::Dims(strides@),
                    ArgView::Buffer(BufferSlot::Input, input_offset),
                    ArgView::Buffer(BufferSlot::Output, 0),
                ],
                input_to_output(),
                Grid::Linear(dst_el),
            )
        }),
{
    let (k_size, stride, padding, dilation) = conv;
    let l_out = out_len(shape[2], k_size, stride, padding, dilation);
    let dst_el = shape[0] * l_out * shape[1] * k_size;
    let mut args = Vec::new();
    bind(&mut args, KernelArg::USize(dst_el));
    bind(&mut args, KernelArg::USize(l_out));
    bind(&mut args, KernelArg::USize(k_size));
    bind(&mut args, KernelArg::USize(stride));
    bind(&mut args, KernelArg::USize(padding));
    bind(&mut args, KernelArg::USize(dilation));
    bind(&mut args, dims(shape));
    bind(&mut args, dims(strides));
    bind(&mut args, KernelArg::Buffer(BufferSlot::Input, input_offset));
    bind(&mut args, KernelArg::Buffer(BufferSlot::Output, 0));
    plain(Source::Conv, kernel, args, input_to_output_exec(), Grid::Linear(dst_el))
}

/// Unfolds a 2-d input `(batch, channels, h, w)` into its convolution windows: one
/// row of `h_k * w_k` taps per output position and channel.
pub fn im2col_strided(
    kernel: &'static str,
    shape: &[usize],
    strides: &[usize],
    conv: (usize, usize, usize, usize, usize),
    input_offset: usize,
) -> (d: Dispatch)
    requires
        shape@.len() >= 4,
        conv_out_fits(shape@[2], conv.0, conv.2, conv.3, conv.4),
        conv_out_fits(shape@[3], conv.1, conv.2, conv.3, conv.4),
        ({
            let h_out = conv_out_len(shape@[2] as int, conv.0 as int, conv.2 as int, conv.3 as int, conv.4 as int);
            let w_out = conv_out_len(shape@[3] as int, conv.1 as int, conv.2 as int, conv.3 as int, conv.4 as int);
            &&& product4_fits(shape@[0] as int, h_out, w_out, shape@[1] as int)
            &&& shape@[0] * h_out * w_out * shape@[1] * conv.0 <= usize::MAX
            &&& shape@[0] * h_out * w_out * shape@[1] * conv.0 * conv.1 <= usize::MAX
        }),
    ensures
        ({
            let (h_k, w_k, stride, padding, dilation) = conv;
            let h_out = conv_out_len(shape@[2] as int, h_k as int, stride as int, padding as int, dilation as int);
            let w_out = conv_out_len(shape@[3] as int, w_k as int, stride as int, padding as int, dilation as int);
            let dst_el = (shape@[0] * h_out * w_out * shape@[1] * h_k * w_k) as usize;
            plain_dispatch(
                d,
                Source::Conv,
                kernel,
                seq![
                    ArgView::USize(dst_el),
                    ArgView::USize(h_out as usize),
                    ArgView::USize(w_out as usize),
                    ArgView::USize(h_k),
                    ArgView::USize(w_k),
                    ArgView::USize(stride),
                    ArgView::USize(padding),
                    ArgView::USize(dilation),
                    ArgView::Dims(shape@),
                    ArgView::Dims(strides@),
                    ArgView::Buffer(BufferSlot::Input, input_offset),
                    ArgView::Buffer(BufferSlot::Output, 0),
                ],
                input_to_output(),
                Grid::Linear(dst_el),
            )
        }),
{
    let (h_k, w_k, stride, padding, dilation) = conv;
    let h = shape[2];
    let w = shape[3];
    let h_out = out_len(h, h_k, stride, padding, dilation);
    let w_out = out_len(w, w_k, stride, padding, dilation);
    let dst_el = shape[0] * h_out * w_out * shape[1] * h_k * w_k;
    let mut args = Vec::new();
    bind(&mut args, KernelArg::USize(dst_el));
    bind(&mut args, KernelArg::USize(h_out));
    bind(&mut args, KernelArg::USize(w_out));
    bind(&mut args, KernelArg::USize(h_k));
    bind(&mut args, KernelArg::USize(w_k));
    bind(&mut args, KernelArg::USize(stride));
    bind(&mut args, KernelArg::USize(padding));
    bind(&mut args, KernelArg::USize(dilation));
    bind(&mut args, dims(shape));
    bind(&mut args, dims(strides));
    bind(&mut args, KernelArg::Buffer(BufferSlot::Input, input_offset));
    bind(&mut args, KernelArg::Buffer(BufferSlot::Output, 0));
    plain(Source::Conv, kernel, args, input_to_output_exec(), Grid::Linear(dst_el))
}

/// Nearest-neighbour upsampling of `(batch, channels, w, h)` to `out_w x out_h`; the
/// float scales `w / out_w` and `h / out_h` are passed as `ScaleW` and `ScaleH`.
pub fn upsample_nearest_2d(
    kernel: &'static str,
    shape: &[usize],
    strides: &[usize],
    out_w: usize,
    out_h: usize,
    input_offset: usize,
) -> (d: Dispatch)
    requires
        shape@.len() >= 4,
        product4_fits(out_w as int, out_h as int, shape@[0] as int, shape@[1] as int),
    ensures
        ({
            let dst_el = (out_w * out_h * shape@[0] * shape@[1]) as usize;
            plain_dispatch(
                d,
                Source::Conv,
                kernel,
                seq![
                    ArgView::USize(out_w),
                    ArgView::USize(out_h),
                    ArgView::Float(FloatSlot::ScaleW),
                    ArgView::Float(FloatSlot::ScaleH),
                    ArgView::Dims(shape@),
                    ArgView::Dims(strides@),
                    ArgView::Buffer(BufferSlot::Input, input_offset),
                    ArgView::Buffer(BufferSlot::Output, 0),
                ],
                input_to_output(),
                Grid::Linear(dst_el),
            )
        }),
{
    let dst_el = out_w * out_h * shape[0] * shape[1];
    let mut args = Vec::new();
    bind(&mut args, KernelArg::USize(out_w));
    bind(&mut args, KernelArg::USize(out_h));
    bind(&mut args, KernelArg::Float(FloatSlot::ScaleW));
    bind(&mut args, KernelArg::Float(FloatSlot::ScaleH));
    bind(&mut args, dims(shape));
    bind(&mut args, dims(strides));
    bind(&mut args, KernelArg::Buffer(BufferSlot::Input, input_offset));
    bind(&mut args, KernelArg::Buffer(BufferSlot::Output, 0));
    plain(Source::Conv, kernel, args, input_to_output_exec(), Grid::Linear(dst_el))
}

/// Threads of a random fill: each thread writes two of the `length` values.
pub open spec fn random_threads(length: usize) -> usize {
    (length / 2 + length % 2) as usize
}

fn random(kernel: &'static str, length: usize, first: FloatSlot, second: FloatSlot) -> (d: Dispatch)
    ensures
        plain_dispatch(
            d,
            Source::Random,
            kernel,
            seq![
                ArgView::USize(length),
                ArgView::Float(first),
                ArgView::Float(second),
                ArgView::Buffer(BufferSlot::Seed, 0),
                ArgView::Buffer(BufferSlot::Output, 0),
            ],
            seeded_to_output(),
            Grid::Linear(random_threads(length)),
        ),
{
    let odd: usize = if length % 2 != 0 { 1 } else { 0 };
    let mut args = Vec::new();
    bind(&mut args, KernelArg::USize(length));
    bind(&mut args, KernelArg::Float(first));
    bind(&mut args, KernelArg::Float(second));
    bind(&mut args, KernelArg::Buffer(BufferSlot::Seed, 0));
    bind(&mut args, KernelArg::Buffer(BufferSlot::Output, 0));
    plain(Source::Random, kernel, args, seeded_to_output_exec(), Grid::Linear(length / 2 + odd))
}

/// A random fill launches just enough threads for two values each: every value has
/// a thread, and no thread is left without one.
pub proof fn lemma_random_threads_cover(length: usize)
    ensures
        2 * random_threads(length) >= length,
        2 * (random_threads(length) - 1) < length,
{
}

/// Fills `length` values drawn uniformly between the float arguments `Min` and `Max`.
pub fn random_uniform(kernel: &'static str, length: usize) -> (d: Dispatch)
    ensures
        plain_dispatch(
            d,
            Source::Random,
            kernel,
            seq![
                ArgView::USize(length),
                ArgView::Float(FloatSlot::Min),
                ArgView::Float(FloatSlot::Max),
                ArgView::Buffer(BufferSlot::Seed, 0),
                ArgView::Buffer(BufferSlot::Output, 0),
            ],
            seeded_to_output(),
            Grid::Linear(random_threads(length)),
        ),
{
    random(kernel, length, FloatSlot::Min, FloatSlot::Max)
}

/// Fills `length` values drawn from a normal distribution of the float arguments
/// `Mean` and `Stddev`.
pub fn random_normal(kernel: &'static str, length: usize) -> (d: Dispatch)
    ensures
        plain_dispatch(
            d,
            Source::Random,
            kernel,
            seq![
                ArgView::USize(length),
                ArgView::Float(FloatSlot::Mean),
                ArgView::Float(FloatSlot::Stddev),
                ArgView::Buffer(BufferSlot::Seed, 0),
                ArgView::Buffer(BufferSlot::Output, 0),
            ],
            seeded_to_output(),
            Grid::Linear(random_threads(length)),
        ),
{
    random(kernel, length, FloatSlot::Mean, FloatSlot::Stddev)
}

} // verus!
