use vstd::prelude::*;
use crate::constants::{ConstantValues, Value};
use crate::error::MetalKernelError;
use crate::grid::{Size3, ceil_div, divide};
use crate::launch::{ArgView, BufferSlot, Grid, KernelArg, Launch, Usage, args_view};
use crate::pipeline::{PipelineRequest, constants_view};
use crate::source::Source;

verus! {

/// Whether an operand with innermost strides `(m1, m2)` is stored row-major
/// (`Some(false)`), transposed (`Some(true)`), or neither (`None`). A row-major
/// operand has unit stride along its `inner` extent and rows `inner` apart; a
/// transposed one has columns `outer` apart and unit stride between rows.
pub open spec fn operand_transpose(m1: usize, m2: usize, inner: usize, outer: usize) -> Option<bool> {
    if m1 == 1 && m2 == inner {
        Some(false)
    } else if m1 == outer && m2 == 1 {
        Some(true)
    } else {
        None
    }
}

pub open spec fn stride_back(s: Seq<usize>, i: int) -> usize {
    s[s.len() - i]
}

/// How the left operand `(b, m, k)` is laid out.
pub open spec fn lhs_transpose(m: usize, k: usize, lhs: Seq<usize>) -> Option<bool> {
    operand_transpose(stride_back(lhs, 1), stride_back(lhs, 2), k, m)
}

/// How the right operand `(b, k, n)` is laid out.
pub open spec fn rhs_transpose(n: usize, k: usize, rhs: Seq<usize>) -> Option<bool> {
    operand_transpose(stride_back(rhs, 1), stride_back(rhs, 2), n, k)
}

/// The tile of the product a SIMD group works on: `(m_simd, n_simd, k_simd)`.
/// A single row gets a narrow, deep tile.
pub open spec fn gemm_tile(m: usize) -> (u16, u16, u16) {
    if m == 1 {
        (8, 8, 64)
    } else {
        (40, 40, 32)
    }
}

/// The function constants of the matrix product kernel. Indices 102, 103, 113 and
/// 50000 are set to `false` although the kernel reads none of them.
pub open spec fn gemm_constants(m: usize, n: usize, k: usize, a_trans: bool, b_trans: bool, batched: bool) -> Seq<(usize, Value)> {
    let t = gemm_tile(m);
    seq![
        (0usize, Value::USize(m)),
        (1usize, Value::USize(n)),
        (2usize, Value::USize(k)),
        (10usize, Value::Bool(a_trans)),
        (11usize, Value::Bool(b_trans)),
        (13usize, Value::Bool(false)),
        (20usize, Value::F32(0x3f80_0000u32)),
        (21usize, Value::F32(0u32)),
        (100usize, Value::Bool(batched)),
        (101usize, Value::Bool(false)),
        (102usize, Value::Bool(false)),
        (103usize, Value::Bool(false)),
        (113usize, Value::Bool(false)),
        (50_000usize, Value::Bool(false)),
        (200usize, Value::U16(t.0)),
        (201usize, Value::U16(t.1)),
        (202usize, Value::U16(t.2)),
        (210usize, Value::U16(1u16)),
        (211usize, Value::U16(1u16)),
        (50_001usize, Value::Bool(false)),
    ]
}

/// `(m_simd, n_simd, k_simd)` for `m` rows, as [`gemm_tile`] gives it.
pub fn tile(m: usize) -> (t: (u16, u16, u16))
    ensures
        t == gemm_tile(m),
{
    if m == 1 {
        (8, 8, 64)
    } else {
        (40, 40, 32)
    }
}

fn transpose_of(m1: usize, m2: usize, inner: usize, outer: usize) -> (r: Option<bool>)
    ensures
        r == operand_transpose(m1, m2, inner, outer),
{
    if m1 == 1 && m2 == inner {
        Some(false)
    } else if m1 == outer && m2 == 1 {
        Some(true)
    } else {
        None
    }
}

/// The pipeline of the batched matrix product `(b, m, k) x (b, k, n)` with kernel `name`
/// (`sgemm` for f32, `hgemm` for f16): the `Mfa` function specialised by
/// [`gemm_constants`]. Operands that are neither row-major nor transposed are refused.
pub fn gemm_pipeline(
    name: &'static str,
    dims: (usize, usize, usize, usize),
    lhs_stride: &[usize],
    rhs_stride: &[usize],
) -> (r: Result<PipelineRequest, MetalKernelError>)
    requires
        lhs_stride@.len() >= 2,
        rhs_stride@.len() >= 2,
    ensures
        ({
            let (b, m, n, k) = dims;
            match (lhs_transpose(m, k, lhs_stride@), rhs_transpose(n, k, rhs_stride@)) {
                (Some(a_trans), Some(b_trans)) => r matches Ok(p) && p.source == Source::Mfa
                    && p.name == name && constants_view(p.constants) == Some(
                    gemm_constants(m, n, k, a_trans, b_trans, b > 1),
                ),
                _ => r matches Err(MetalKernelError::MatMulNonContiguous { lhs_stride: l, rhs_stride: rr, mnk })
                    && l@ == lhs_stride@ && rr@ == rhs_stride@ && mnk == (m, n, k),
            }
        }),
{
    let (b, m, n, k) = dims;
    let a_trans = match transpose_of(lhs_stride[lhs_stride.len() - 1], lhs_stride[lhs_stride.len() - 2], k, m) {
        Some(t) => t,
        None => {
            return Err(MetalKernelError::MatMulNonContiguous {
                lhs_stride: vstd::slice::slice_to_vec(lhs_stride),
                rhs_stride: vstd::slice::slice_to_vec(rhs_stride),
                mnk: (m, n, k),
            });
        },
    };
    let b_trans = match transpose_of(rhs_stride[rhs_stride.len() - 1], rhs_stride[rhs_stride.len() - 2], n, k) {
        Some(t) => t,
        None => {
            return Err(MetalKernelError::MatMulNonContiguous {
                lhs_stride: vstd::slice::slice_to_vec(lhs_stride),
                rhs_stride: vstd::slice::slice_to_vec(rhs_stride),
                mnk: (m, n, k),
            });
        },
    };
    let batched = b > 1;
    let (m_simd, n_simd, k_simd) = tile(m);
    let mut v: Vec<(usize, Value)> = Vec::new();
    v.push((0, Value::USize(m)));
    v.push((1, Value::USize(n)));
    v.push((2, Value::USize(k)));
    v.push((10, Value::Bool(a_trans)));
    v.push((11, Value::Bool(b_trans)));
    v.push((13, Value::Bool(false)));
    v.push((20, Value::F32(0x3f80_0000)));
    v.push((21, Value::F32(0)));
    v.push((100, Value::Bool(batched)));
    v.push((101, Value::Bool(false)));
    v.push((102, Value::Bool(false)));
    v.push((103, Value::Bool(false)));
    v.push((113, Value::Bool(false)));
    v.push((50_000, Value::Bool(false)));
    v.push((200, Value::U16(m_simd)));
    v.push((201, Value::U16(n_simd)));
    v.push((202, Value::U16(k_simd)));
    v.push((210, Value::U16(1)));
    v.push((211, Value::U16(1)));
    v.push((50_001, Value::Bool(false)));
    assert(v@ =~= gemm_constants(m, n, k, a_trans, b_trans, batched));
    Ok(PipelineRequest { source: Source::Mfa, name, constants: Some(ConstantValues::new(v)) })
}

/// The matrix product is planned exactly for operands that are each contiguous in
/// one of their layouts, and the transpose flags it sets say which layout each has.
pub proof fn lemma_gemm_accepts_contiguous_operands(m: usize, n: usize, k: usize, lhs: Seq<usize>, rhs: Seq<usize>)
    requires
        lhs.len() >= 2,
        rhs.len() >= 2,
    ensures
        ({
            let (l1, l2) = (lhs[lhs.len() - 1], lhs[lhs.len() - 2]);
            let (r1, r2) = (rhs[rhs.len() - 1], rhs[rhs.len() - 2]);
            &&& lhs_transpose(m, k, lhs) is Some <==> ((l1 == 1 && l2 == k) || (l1 == m && l2 == 1))
            &&& rhs_transpose(n, k, rhs) is Some <==> ((r1 == 1 && r2 == n) || (r1 == k && r2 == 1))
            &&& lhs_transpose(m, k, lhs) == Some(true) ==> l1 == m && l2 == 1
            &&& rhs_transpose(n, k, rhs) == Some(true) ==> r1 == k && r2 == 1
            &&& lhs_transpose(m, k, lhs) == Some(false) ==> l1 == 1 && l2 == k
            &&& rhs_transpose(n, k, rhs) == Some(false) ==> r1 == 1 && r2 == n
        }),
{
}

/// The function constants give the kernel the extents `m`, `n`, `k` at 0, 1, 2, the
/// layouts of A and B at 10 and 11 and whether there are several batches at 100,
/// and set each index once.
pub proof fn lemma_gemm_constants_carry_problem(m: usize, n: usize, k: usize, a_trans: bool, b_trans: bool, batched: bool)
    ensures
        ({
            let c = gemm_constants(m, n, k, a_trans, b_trans, batched);
            &&& c.contains((0usize, Value::USize(m)))
            &&& c.contains((1usize, Value::USize(n)))
            &&& c.contains((2usize, Value::USize(k)))
            &&& c.contains((10usize, Value::Bool(a_trans)))
            &&& c.contains((11usize, Value::Bool(b_trans)))
            &&& c.contains((100usize, Value::Bool(batched)))
            &&& forall|i: int, j: int| 0 <= i < j < c.len() ==> c[i].0 != c[j].0
        }),
{
    let c = gemm_constants(m, n, k, a_trans, b_trans, batched);
    assert(c[0] == (0usize, Value::USize(m)));
    assert(c[1] == (1usize, Value::USize(n)));
    assert(c[2] == (2usize, Value::USize(k)));
    assert(c[3] == (10usize, Value::Bool(a_trans)));
    assert(c[4] == (11usize, Value::Bool(b_trans)));
    assert(c[8] == (100usize, Value::Bool(batched)));
}

/// The groups of a matrix product cover the whole output: every row and column of
/// every batch falls in some `m_simd x n_simd` tile, and no tile lies wholly outside it.
pub proof fn lemma_gemm_grid_covers_output(
    dims: (usize, usize, usize, usize),
    lhs: Seq<usize>,
    lhs_offset: usize,
    rhs: Seq<usize>,
    rhs_offset: usize,
    bytes: u16,
    l: Launch,
)
    requires
        gemm_launch_spec(dims, lhs, lhs_offset, rhs, rhs_offset, bytes, l),
        gemm_launch_fits(dims, lhs, rhs, bytes),
    ensures
        ({
            let (b, m, n, k) = dims;
            let (m_simd, n_simd, k_simd) = gemm_tile(m);
            &&& l.grid matches Grid::Fixed { groups, threads }
            &&& groups.width * n_simd >= n
            &&& (groups.width - 1) * n_simd < n
            &&& groups.height * m_simd >= m
            &&& (groups.height - 1) * m_simd < m
            &&& groups.depth == b
        }),
{
    let (b, m, n, k) = dims;
    let t = gemm_tile(m);
    crate::grid::lemma_ceil_div_covers(n as int, t.1 as int);
    crate::grid::lemma_ceil_div_covers(m as int, t.0 as int);
    let w = ceil_div(n as int, t.1 as int);
    let h = ceil_div(m as int, t.0 as int);
    let xn: int = n + t.1 - 1;
    let xm: int = m + t.0 - 1;
    let dn: int = t.1 as int;
    let dm: int = t.0 as int;
    assert(xn / dn <= xn) by (nonlinear_arith)
        requires
            dn >= 1,
            xn >= 0,
    ;
    assert(xm / dm <= xm) by (nonlinear_arith)
        requires
            dm >= 1,
            xm >= 0,
    ;
    assert((w - 1) * t.1 == w * t.1 - t.1) by (nonlinear_arith);
    assert((h - 1) * t.0 == h * t.0 - t.0) by (nonlinear_arith);
}

/// Bytes per element of the kernel: `sgemm` works on f32, `hgemm` on f16; any other
/// name is no matrix product kernel.
pub open spec fn gemm_element_bytes(name: Seq<char>) -> Option<u16> {
    if name == "sgemm"@ {
        Some(4u16)
    } else if name == "hgemm"@ {
        Some(2u16)
    } else {
        None
    }
}

/// Elements of threadgroup memory a group needs: a tile of A and one of B, or a tile
/// of C where that is larger and neither `m` nor `n` is a multiple of 8.
pub open spec fn gemm_block_elements(m: usize, n: usize) -> int {
    let t = gemm_tile(m);
    let ab = t.0 * t.2 + t.2 * t.1;
    let c = t.0 * t.1;
    if m % 8 != 0 && n % 8 != 0 && c > ab {
        c
    } else {
        ab
    }
}

/// No arithmetic of the launch overflows, for elements of `bytes` bytes.
pub open spec fn gemm_launch_fits(dims: (usize, usize, usize, usize), lhs: Seq<usize>, rhs: Seq<usize>, bytes: u16) -> bool {
    let (b, m, n, k) = dims;
    let t = gemm_tile(m);
    &&& n + t.1 <= usize::MAX
    &&& m + t.0 <= usize::MAX
    &&& b > 1 ==> {
        &&& lhs.len() >= 3
        &&& rhs.len() >= 3
        &&& stride_back(lhs, 3) * bytes <= usize::MAX
        &&& stride_back(rhs, 3) * bytes <= usize::MAX
        &&& m * n <= usize::MAX
        &&& m * n * bytes <= usize::MAX
    }
}

/// The launch of the matrix product: operand buffers at indices 0 and 1, the output
/// at 2 and, for more than one batch, the byte strides between batches at 10; one
/// group of 32 threads per `(m_simd x n_simd)` tile of the output and batch.
pub open spec fn gemm_launch_spec(
    dims: (usize, usize, usize, usize),
    lhs: Seq<usize>,
    lhs_offset: usize,
    rhs: Seq<usize>,
    rhs_offset: usize,
    bytes: u16,
    l: Launch,
) -> bool {
    let (b, m, n, k) = dims;
    let t = gemm_tile(m);
    let buffers = seq![
        (0u64, ArgView::Buffer(BufferSlot::Lhs, lhs_offset)),
        (1u64, ArgView::Buffer(BufferSlot::Rhs, rhs_offset)),
        (2u64, ArgView::Buffer(BufferSlot::Output, 0)),
    ];
    let strides = ArgView::BatchStrides(
        (stride_back(lhs, 3) * bytes) as u64,
        (stride_back(rhs, 3) * bytes) as u64,
        (m * n * bytes) as u64,
        0,
    );
    &&& l.threadgroup_memory == Some((gemm_block_elements(m, n) * bytes) as u64)
    &&& args_view(l.args@) =~= (if b > 1 { buffers.push((10u64, strides)) } else { buffers })
    &&& l.resources@ =~= seq![
        (BufferSlot::Lhs, Usage::Read),
        (BufferSlot::Rhs, Usage::Read),
        (BufferSlot::Output, Usage::Write),
    ]
    &&& l.grid == Grid::Fixed {
        groups: Size3 {
            width: ceil_div(n as int, t.1 as int) as u64,
            height: ceil_div(m as int, t.0 as int) as u64,
            depth: b as u64,
        },
        threads: Size3 { width: 32, height: 1, depth: 1 },
    }
}

/// Bytes per element of the kernel `name`, as [`gemm_element_bytes`] gives it.
pub fn element_bytes(name: &'static str) -> (r: Option<u16>)
    ensures
        r == gemm_element_bytes(name@),
{
    let owned = name.to_owned();
    if owned == "sgemm".to_owned() {
        Some(4)
    } else if owned == "hgemm".to_owned() {
        Some(2)
    } else {
        None
    }
}

/// How the matrix product runs once its pipeline is built; a `name` that is no
/// matrix product kernel is reported as a library error.
pub fn gemm_launch(
    name: &'static str,
    dims: (usize, usize, usize, usize),
    lhs_stride: &[usize],
    lhs_offset: usize,
    rhs_stride: &[usize],
    rhs_offset: usize,
) -> (r: Result<Launch, MetalKernelError>)
    requires
        lhs_stride@.len() >= 2,
        rhs_stride@.len() >= 2,
        gemm_element_bytes(name@) matches Some(bytes) ==> gemm_launch_fits(dims, lhs_stride@, rhs_stride@, bytes),
    ensures
        match gemm_element_bytes(name@) {
            Some(bytes) => r matches Ok(l) && gemm_launch_spec(dims, lhs_stride@, lhs_offset, rhs_stride@, rhs_offset, bytes, l),
            None => r matches Err(MetalKernelError::LoadLibraryError(msg))
                && msg@ == name@ + " is not a valid kernel for gemm"@,
        },
{
    let (b, m, n, k) = dims;
    let (m_simd, n_simd, k_simd) = tile(m);
    let m_splits: u16 = 1;
    let n_splits: u16 = 1;
    let m_group: u16 = m_simd * m_splits;
    let n_group: u16 = n_simd * n_splits;
    proof {
        if m == 1 {
            assert(m_group == 8 && n_group == 8 && k_simd == 64);
        } else {
            assert(m_group == 40 && n_group == 40 && k_simd == 32);
        }
    }
    let a_block_length: u16 = m_group * k_simd;
    let b_block_length: u16 = k_simd * n_group;
    let mut block_elements: u16 = a_block_length + b_block_length;
    if (m % 8 != 0) && (n % 8 != 0) {
        let c_block_length: u16 = m_group * n_group;
        if c_block_length > block_elements {
            block_elements = c_block_length;
        }
    }
    let bytes: u16 = match element_bytes(name) {
        Some(bytes) => bytes,
        None => {
            let mut msg = name.to_owned();
            msg.append(" is not a valid kernel for gemm");
            return Err(MetalKernelError::LoadLibraryError(msg));
        },
    };
    assert(block_elements * bytes <= 10240) by (nonlinear_arith)
        requires
            block_elements <= 2560,
            bytes <= 4,
    ;
    let block_bytes: u16 = block_elements * bytes;

    let mut args: Vec<(u64, KernelArg)> = Vec::new();
    args.push((0, KernelArg::Buffer(BufferSlot::Lhs, lhs_offset)));
    args.push((1, KernelArg::Buffer(BufferSlot::Rhs, rhs_offset)));
    args.push((2, KernelArg::Buffer(BufferSlot::Output, 0)));
    if b > 1 {
        let byte_stride_a: usize = lhs_stride[lhs_stride.len() - 3] * bytes as usize;
        let byte_stride_b: usize = rhs_stride[rhs_stride.len() - 3] * bytes as usize;
        let byte_stride_c: usize = m * n * bytes as usize;
        let byte_stride_d: u64 = 0;
        args.push((
            10,
            KernelArg::BatchStrides(byte_stride_a as u64, byte_stride_b as u64, byte_stride_c as u64, byte_stride_d),
        ));
    }
    let mut resources = Vec::new();
    resources.push((BufferSlot::Lhs, Usage::Read));
    resources.push((BufferSlot::Rhs, Usage::Read));
    resources.push((BufferSlot::Output, Usage::Write));
    let groups = Size3 {
        width: divide(n, n_group as usize),
        height: divide(m, m_group as usize),
        depth: b as u64,
    };
    let threads = Size3 { width: 32 * (m_splits as u64) * (n_splits as u64), height: 1, depth: 1 };
    Ok(Launch {
        args,
        resources,
        threadgroup_memory: Some(block_bytes as u64),
        grid: Grid::Fixed { groups, threads },
    })
}

/// The threadgroup memory of a matrix product always holds one tile of A
/// (`m_simd x k_simd`) and one of B (`k_simd x n_simd`). It is more than that only
/// when neither `m` nor `n` is a multiple of 8 and the C tile (`m_simd x n_simd`) is
/// larger, and then it is exactly the C tile.
pub proof fn lemma_gemm_memory_holds_tiles(
    dims: (usize, usize, usize, usize),
    lhs: Seq<usize>,
    lhs_offset: usize,
    rhs: Seq<usize>,
    rhs_offset: usize,
    bytes: u16,
    l: Launch,
)
    requires
        gemm_launch_spec(dims, lhs, lhs_offset, rhs, rhs_offset, bytes, l),
        bytes == 2 || bytes == 4,
    ensures
        ({
            let (b, m, n, k) = dims;
            let (m_simd, n_simd, k_simd) = gemm_tile(m);
            let ab = (m_simd * k_simd + k_simd * n_simd) * bytes;
            let c = m_simd * n_simd * bytes;
            &&& l.threadgroup_memory matches Some(mem)
            &&& mem >= ab
            &&& (mem == ab || mem == c)
            &&& mem > ab <==> (m % 8 != 0 && n % 8 != 0 && c > ab)
        }),
{
    let (b, m, n, k) = dims;
    let t = gemm_tile(m);
    if m == 1 {
        assert(t == (8u16, 8u16, 64u16));
    } else {
        assert(t == (40u16, 40u16, 32u16));
    }
    if bytes == 2 {
        assert(l.threadgroup_memory == Some((gemm_block_elements(m, n) * 2) as u64));
    } else {
        assert(l.threadgroup_memory == Some((gemm_block_elements(m, n) * 4) as u64));
    }
}

} // verus!
