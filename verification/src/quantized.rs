use vstd::prelude::*;
use crate::grid::{Size3, ceil_div, divide};
use crate::launch::{ArgView, BufferSlot, Dispatch, Grid, KernelArg, Launch, Usage, args_view, in_order, bind};
use crate::pipeline::PipelineRequest;
use crate::source::Source;

verus! {

/// The block formats of quantized weights (and the plain f16 and f32 formats).
#[derive(Debug, Clone, Copy)]
pub enum GgmlDType {
    Q4_0,
    Q4_1,
    Q5_0,
    Q5_1,
    Q8_0,
    Q8_1,
    Q2K,
    Q3K,
    Q4K,
    Q5K,
    Q6K,
    Q8K,
    F16,
    F32,
}

/// `(nth0, nth1, align)`: the two extents of a thread group and how many rows of the
/// weights one group covers.
pub open spec fn quantized_layout(dtype: GgmlDType) -> (u64, u64, usize) {
    match dtype {
        GgmlDType::Q4_0 | GgmlDType::Q4_1 | GgmlDType::Q5_0 | GgmlDType::Q5_1 | GgmlDType::Q8_0
        | GgmlDType::Q8_1 => (8, 8, 8),
        GgmlDType::Q2K => (4, 8, 4),
        GgmlDType::Q4K => (4, 8, 4),
        GgmlDType::Q3K | GgmlDType::Q5K => (2, 32, 4),
        GgmlDType::Q6K => (2, 32, 2),
        GgmlDType::F16 | GgmlDType::Q8K => (32, 1, 8),
        GgmlDType::F32 => (32, 1, 8),
    }
}

/// The matrix-vector kernel of each format.
pub open spec fn quantized_kernel_name(dtype: GgmlDType) -> &'static str {
    match dtype {
        GgmlDType::Q4_0 => "kernel_mul_mv_q4_0_f32",
        GgmlDType::Q4_1 => "kernel_mul_mv_q4_1_f32",
        GgmlDType::Q5_0 => "kernel_mul_mv_q5_0_f32",
        GgmlDType::Q5_1 => "kernel_mul_mv_q5_1_f32",
        GgmlDType::Q8_0 => "kernel_mul_mv_q8_0_f32",
        GgmlDType::Q8_1 => "kernel_mul_mv_q8_1_f32",
        GgmlDType::Q2K => "kernel_mul_mv_q2_K_f32",
        GgmlDType::Q3K => "kernel_mul_mv_q3_K_f32",
        GgmlDType::Q4K => "kernel_mul_mv_q4_K_f32",
        GgmlDType::Q5K => "kernel_mul_mv_q5_K_f32",
        GgmlDType::Q6K => "kernel_mul_mv_q6_K_f32",
        GgmlDType::Q8K => "kernel_mul_mv_q8_K_f32",
        GgmlDType::F16 => "kernel_mul_mv_f16_f32",
        GgmlDType::F32 => "kernel_mul_mv_f32_f32",
    }
}

/// `(nth0, nth1, align)` of the format, as [`quantized_layout`] gives it.
pub fn thread_layout(dtype: GgmlDType) -> (r: (u64, u64, usize))
    ensures
        r == quantized_layout(dtype),
{
    match dtype {
        GgmlDType::Q4_0 | GgmlDType::Q4_1 | GgmlDType::Q5_0 | GgmlDType::Q5_1 | GgmlDType::Q8_0
        | GgmlDType::Q8_1 => (8, 8, 8),
        // Q2K gets the Q4K layout, which works around a Metal issue with it
        GgmlDType::Q2K => (4, 8, 4),
        GgmlDType::Q4K => (4, 8, 4),
        GgmlDType::Q3K | GgmlDType::Q5K => (2, 32, 4),
        GgmlDType::Q6K => (2, 32, 2),
        // the reference kernels go over rows for these
        GgmlDType::F16 | GgmlDType::Q8K => (32, 1, 8),
        GgmlDType::F32 => (32, 1, 8),
    }
}

fn kernel_name(dtype: GgmlDType) -> (r: &'static str)
    ensures
        r == quantized_kernel_name(dtype),
{
    match dtype {
        GgmlDType::Q4_0 => "kernel_mul_mv_q4_0_f32",
        GgmlDType::Q4_1 => "kernel_mul_mv_q4_1_f32",
        GgmlDType::Q5_0 => "kernel_mul_mv_q5_0_f32",
        GgmlDType::Q5_1 => "kernel_mul_mv_q5_1_f32",
        GgmlDType::Q8_0 => "kernel_mul_mv_q8_0_f32",
        GgmlDType::Q8_1 => "kernel_mul_mv_q8_1_f32",
        GgmlDType::Q2K => "kernel_mul_mv_q2_K_f32",
        GgmlDType::Q3K => "kernel_mul_mv_q3_K_f32",
        GgmlDType::Q4K => "kernel_mul_mv_q4_K_f32",
        GgmlDType::Q5K => "kernel_mul_mv_q5_K_f32",
        GgmlDType::Q6K => "kernel_mul_mv_q6_K_f32",
        GgmlDType::Q8K => "kernel_mul_mv_q8_K_f32",
        GgmlDType::F16 => "kernel_mul_mv_f16_f32",
        GgmlDType::F32 => "kernel_mul_mv_f32_f32",
    }
}

/// The extents and byte strides the kernel is given, in the reverse (ggml) order:
/// `ne0x` for the weights `(n, k)` per batch, `ne1x` for the input `(m, k)`, `ne0`/`ne1`
/// for the output; the byte strides are all zero and both broadcast ratios are 1.
pub open spec fn quantized_args(b: usize, m: usize, n: usize, k: usize, lhs_offset: usize) -> Seq<ArgView> {
    seq![
        ArgView::Buffer(BufferSlot::Rhs, 0),
        ArgView::Buffer(BufferSlot::Lhs, lhs_offset),
        ArgView::Buffer(BufferSlot::Output, 0),
        ArgView::I64(k as i64),
        ArgView::I64(n as i64),
        ArgView::I64(b as i64),
        ArgView::I64(0),
        ArgView::I64(0),
        ArgView::I64(0),
        ArgView::I64(k as i64),
        ArgView::I64(m as i64),
        ArgView::I64(b as i64),
        ArgView::I64(0),
        ArgView::I64(0),
        ArgView::I64(0),
        ArgView::I64(n as i64),
        ArgView::I64(m as i64),
        ArgView::U32(1),
        ArgView::U32(1),
    ]
}

/// The product of the input `lhs` `(b, m, k)` with the transposed quantized weights
/// `rhs` `(b, n, k)` into `(b, m, n)`: one group per `align` rows of the weights, per
/// input row and per batch.
pub fn quantized_matmul_t(dtype: GgmlDType, dims: (usize, usize, usize, usize), lhs_offset: usize) -> (d: Dispatch)
    requires
        dims.0 > 0,
        dims.2 + quantized_layout(dtype).2 <= usize::MAX,
    ensures
        ({
            let (b, m, n, k) = dims;
            let (nth0, nth1, align) = quantized_layout(dtype);
            &&& d.pipeline.source == Source::Quantized
            &&& d.pipeline.name == quantized_kernel_name(dtype)
            &&& d.pipeline.constants is None
            &&& args_view(d.launch.args@) =~= in_order(quantized_args(b, m, n, k, lhs_offset))
            &&& d.launch.resources@ =~= seq![
                (BufferSlot::Lhs, Usage::Read),
                (BufferSlot::Rhs, Usage::Read),
                (BufferSlot::Output, Usage::Write),
            ]
            &&& d.launch.threadgroup_memory == Some(8192u64)
            &&& d.launch.grid == Grid::Fixed {
                groups: Size3 { width: ceil_div(n as int, align as int) as u64, height: m as u64, depth: b as u64 },
                threads: Size3 { width: nth0, height: nth1, depth: 1 },
            }
        }),
{
    let (b, m, n, k) = dims;
    let ne00: i64 = k as i64;
    let ne01: i64 = n as i64;
    let ne02: i64 = b as i64;
    let ne03: i64 = 1;

    let nb00: i64 = 0;
    let nb01: i64 = 0;
    let nb02: i64 = 0;

    let ne10: i64 = k as i64;
    let ne11: i64 = m as i64;
    let ne12: i64 = b as i64;
    let ne13: i64 = 1;

    let nb10: i64 = 0;
    let nb11: i64 = 0;
    let nb12: i64 = 0;

    let ne0: i64 = n as i64;
    let ne1: i64 = m as i64;
    proof {
        assert(b > 0 ==> (b as i64) != 0) by (bit_vector);
        assert((n as i64) as usize == n) by (bit_vector);
        assert((m as i64) as u64 == m as u64) by (bit_vector);
        assert((b as i64) as u64 == b as u64) by (bit_vector);
    }
    assert(forall|x: int| x != 0 ==> #[trigger] (x / x) == 1) by {
        assert forall|x: int| x != 0 implies #[trigger] (x / x) == 1 by {
            vstd::arithmetic::div_mod::lemma_div_basics(x);
        }
    }
    // the ratios of the batch extents of input and weights, which are equal here
    let r2: u32 = ne12.checked_div(ne02).unwrap() as u32;
    let r3: u32 = ne13.checked_div(ne03).unwrap() as u32;

    let (nth0, nth1, align) = thread_layout(dtype);
    let groups = Size3 { width: divide(ne01 as usize, align), height: ne11 as u64, depth: (ne12 * ne13) as u64 };
    let threads = Size3 { width: nth0, height: nth1, depth: 1 };
    let name = kernel_name(dtype);

    let mut args: Vec<(u64, KernelArg)> = Vec::new();
    bind(&mut args, KernelArg::Buffer(BufferSlot::Rhs, 0));
    bind(&mut args, KernelArg::Buffer(BufferSlot::Lhs, lhs_offset));
    bind(&mut args, KernelArg::Buffer(BufferSlot::Output, 0));
    bind(&mut args, KernelArg::I64(ne00));
    bind(&mut args, KernelArg::I64(ne01));
    bind(&mut args, KernelArg::I64(ne02));
    bind(&mut args, KernelArg::I64(nb00));
    bind(&mut args, KernelArg::I64(nb01));
    bind(&mut args, KernelArg::I64(nb02));
    bind(&mut args, KernelArg::I64(ne10));
    bind(&mut args, KernelArg::I64(ne11));
    bind(&mut args, KernelArg::I64(ne12));
    bind(&mut args, KernelArg::I64(nb10));
    bind(&mut args, KernelArg::I64(nb11));
    bind(&mut args, KernelArg::I64(nb12));
    bind(&mut args, KernelArg::I64(ne0));
    bind(&mut args, KernelArg::I64(ne1));
    bind(&mut args, KernelArg::U32(r2));
    bind(&mut args, KernelArg::U32(r3));

    let mut resources = Vec::new();
    resources.push((BufferSlot::Lhs, Usage::Read));
    resources.push((BufferSlot::Rhs, Usage::Read));
    resources.push((BufferSlot::Output, Usage::Write));
    Dispatch {
        pipeline: PipelineRequest { source: Source::Quantized, name, constants: None },
        launch: Launch {
            args,
            resources,
            threadgroup_memory: Some(8192),
            grid: Grid::Fixed { groups, threads },
        },
    }
}

/// The ggml name of each format, as its kernels are named after it.
pub open spec fn format_tag(dtype: GgmlDType) -> &'static str {
    match dtype {
        GgmlDType::Q4_0 => "q4_0",
        GgmlDType::Q4_1 => "q4_1",
        GgmlDType::Q5_0 => "q5_0",
        GgmlDType::Q5_1 => "q5_1",
        GgmlDType::Q8_0 => "q8_0",
        GgmlDType::Q8_1 => "q8_1",
        GgmlDType::Q2K => "q2_K",
        GgmlDType::Q3K => "q3_K",
        GgmlDType::Q4K => "q4_K",
        GgmlDType::Q5K => "q5_K",
        GgmlDType::Q6K => "q6_K",
        GgmlDType::Q8K => "q8_K",
        GgmlDType::F16 => "f16",
        GgmlDType::F32 => "f32",
    }
}

/// Each format runs its own matrix-vector kernel: the kernel is `kernel_mul_mv_`,
/// the format's name and `_f32`, and two different formats never share a kernel.
pub proof fn lemma_quantized_kernel_per_format(d1: GgmlDType, d2: GgmlDType)
    ensures
        quantized_kernel_name(d1)@ == "kernel_mul_mv_"@ + format_tag(d1)@ + "_f32"@,
        quantized_kernel_name(d1)@ == quantized_kernel_name(d2)@ ==> d1 == d2,
{
    reveal_strlit("kernel_mul_mv_");
    reveal_strlit("_f32");
    reveal_strlit("q4_0");
    reveal_strlit("q4_1");
    reveal_strlit("q5_0");
    reveal_strlit("q5_1");
    reveal_strlit("q8_0");
    reveal_strlit("q8_1");
    reveal_strlit("q2_K");
    reveal_strlit("q3_K");
    reveal_strlit("q4_K");
    reveal_strlit("q5_K");
    reveal_strlit("q6_K");
    reveal_strlit("q8_K");
    reveal_strlit("f16");
    reveal_strlit("f32");
    reveal_strlit("kernel_mul_mv_q4_0_f32");
    reveal_strlit("kernel_mul_mv_q4_1_f32");
    reveal_strlit("kernel_mul_mv_q5_0_f32");
    reveal_strlit("kernel_mul_mv_q5_1_f32");
    reveal_strlit("kernel_mul_mv_q8_0_f32");
    reveal_strlit("kernel_mul_mv_q8_1_f32");
    reveal_strlit("kernel_mul_mv_q2_K_f32");
    reveal_strlit("kernel_mul_mv_q3_K_f32");
    reveal_strlit("kernel_mul_mv_q4_K_f32");
    reveal_strlit("kernel_mul_mv_q5_K_f32");
    reveal_strlit("kernel_mul_mv_q6_K_f32");
    reveal_strlit("kernel_mul_mv_q8_K_f32");
    reveal_strlit("kernel_mul_mv_f16_f32");
    reveal_strlit("kernel_mul_mv_f32_f32");
    let n1 = quantized_kernel_name(d1)@;
    let n2 = quantized_kernel_name(d2)@;
    assert(n1 =~= "kernel_mul_mv_"@ + format_tag(d1)@ + "_f32"@);
    if n1 == n2 {
        assert(n1[14] == n2[14] && n1[15] == n2[15] && n1[16] == n2[16] && n1[17] == n2[17]);
    }
}

} // verus!
