use candle_metal_kernels::constants::Value;
use candle_metal_kernels::gemm::{gemm_launch, gemm_pipeline};
use candle_metal_kernels::grid::Size3;
use candle_metal_kernels::launch::{BufferSlot, Grid, KernelArg, Usage};
use KernelArg::{Buffer, I64, U32};
use candle_metal_kernels::quantized::{quantized_matmul_t, GgmlDType};
use candle_metal_kernels::source::Source;
use candle_metal_kernels::MetalKernelError;

fn constants_of(m: usize, n: usize, k: usize, a: bool, b: bool, batched: bool, tile: (u16, u16, u16)) -> Vec<(usize, Value)> {
    vec![
        (0, Value::USize(m)),
        (1, Value::USize(n)),
        (2, Value::USize(k)),
        (10, Value::Bool(a)),
        (11, Value::Bool(b)),
        (13, Value::Bool(false)),
        (20, Value::F32(1.0f32.to_bits())),
        (21, Value::F32(0.0f32.to_bits())),
        (100, Value::Bool(batched)),
        (101, Value::Bool(false)),
        (102, Value::Bool(false)),
        (103, Value::Bool(false)),
        (113, Value::Bool(false)),
        (50_000, Value::Bool(false)),
        (200, Value::U16(tile.0)),
        (201, Value::U16(tile.1)),
        (202, Value::U16(tile.2)),
        (210, Value::U16(1)),
        (211, Value::U16(1)),
        (50_001, Value::Bool(false)),
    ]
}

fn constants_list(p: &candle_metal_kernels::PipelineRequest) -> Vec<(usize, Value)> {
    p.constants.as_ref().unwrap().bindings().iter().map(|b| (b.index as usize, b.value)).collect()
}

#[test]
fn gemm_row_major_operands() {
    // (1, 4, 5) x (1, 5, 6), both contiguous
    let p = gemm_pipeline("sgemm", (1, 4, 6, 5), &[20, 5, 1], &[30, 6, 1]).unwrap();
    assert_eq!(p.source, Source::Mfa);
    assert_eq!(p.name, "sgemm");
    assert_eq!(constants_list(&p), constants_of(4, 6, 5, false, false, false, (40, 40, 32)));
}

#[test]
fn gemm_transposed_operands() {
    let p = gemm_pipeline("hgemm", (3, 1, 6, 5), &[5, 1, 1], &[30, 1, 5]).unwrap();
    // lhs (m = 1, k = 5): strides (1, 1) are those of a transposed operand, as are
    // rhs (k = 5, n = 6): (5, 1)
    assert_eq!(constants_list(&p), constants_of(1, 6, 5, true, true, true, (8, 8, 64)));
    let p = gemm_pipeline("sgemm", (1, 4, 6, 5), &[20, 1, 4], &[30, 6, 1]).unwrap();
    assert_eq!(constants_list(&p), constants_of(4, 6, 5, true, false, false, (40, 40, 32)));
}

#[test]
fn gemm_non_contiguous_is_refused() {
    match gemm_pipeline("sgemm", (1, 4, 6, 5), &[40, 10, 2], &[30, 6, 1]) {
        Err(MetalKernelError::MatMulNonContiguous { lhs_stride, rhs_stride, mnk }) => {
            assert_eq!(lhs_stride, vec![40, 10, 2]);
            assert_eq!(rhs_stride, vec![30, 6, 1]);
            assert_eq!(mnk, (4, 6, 5));
        }
        other => panic!("unexpected {other:?}"),
    }
    assert!(matches!(
        gemm_pipeline("sgemm", (1, 4, 6, 5), &[20, 5, 1], &[30, 7, 1]),
        Err(MetalKernelError::MatMulNonContiguous { .. })
    ));
}

#[test]
fn gemm_launch_single_batch() {
    let l = gemm_launch("sgemm", (1, 4, 6, 5), &[20, 5, 1], 8, &[30, 6, 1], 12).unwrap();
    assert_eq!(l.threadgroup_memory, Some(2560 * 4));
    assert_eq!(
        l.args,
        vec![
            (0, KernelArg::Buffer(BufferSlot::Lhs, 8)),
            (1, KernelArg::Buffer(BufferSlot::Rhs, 12)),
            (2, KernelArg::Buffer(BufferSlot::Output, 0)),
        ]
    );
    assert_eq!(
        l.resources,
        vec![(BufferSlot::Lhs, Usage::Read), (BufferSlot::Rhs, Usage::Read), (BufferSlot::Output, Usage::Write)]
    );
    assert_eq!(
        l.grid,
        Grid::Fixed {
            groups: Size3 { width: 1, height: 1, depth: 1 },
            threads: Size3 { width: 32, height: 1, depth: 1 },
        }
    );
}

#[test]
fn gemm_launch_batched() {
    let l = gemm_launch("hgemm", (2, 100, 90, 5), &[500, 5, 1], 0, &[450, 90, 1], 0).unwrap();
    assert_eq!(l.threadgroup_memory, Some(2560 * 2));
    assert_eq!(l.args[3], (10, KernelArg::BatchStrides(1000, 900, 100 * 90 * 2, 0)));
    assert_eq!(
        l.grid,
        Grid::Fixed {
            groups: Size3 { width: 3, height: 3, depth: 2 },
            threads: Size3 { width: 32, height: 1, depth: 1 },
        }
    );
    let l = gemm_launch("sgemm", (1, 1, 70, 5), &[5, 5, 1], 0, &[350, 70, 1], 0).unwrap();
    assert_eq!(l.threadgroup_memory, Some((8 * 64 + 64 * 8) * 4));
    assert_eq!(l.args.len(), 3);
    assert_eq!(
        l.grid,
        Grid::Fixed {
            groups: Size3 { width: 9, height: 1, depth: 1 },
            threads: Size3 { width: 32, height: 1, depth: 1 },
        }
    );
}

#[test]
fn gemm_unknown_kernel_is_refused() {
    match gemm_launch("dgemm", (1, 4, 6, 5), &[20, 5, 1], 0, &[30, 6, 1], 0) {
        Err(MetalKernelError::LoadLibraryError(msg)) => assert_eq!(msg, "dgemm is not a valid kernel for gemm"),
        other => panic!("unexpected {other:?}"),
    }
}

#[test]
fn quantized_q4k_plan() {
    let d = quantized_matmul_t(GgmlDType::Q4K, (1, 3, 100, 256), 16);
    assert_eq!(d.pipeline.source, Source::Quantized);
    assert_eq!(d.pipeline.name, "kernel_mul_mv_q4_K_f32");
    assert!(d.pipeline.constants.is_none());
    assert_eq!(d.launch.threadgroup_memory, Some(8192));
    assert_eq!(
        d.launch.grid,
        Grid::Fixed {
            groups: Size3 { width: 25, height: 3, depth: 1 },
            threads: Size3 { width: 4, height: 8, depth: 1 },
        }
    );
    let args: Vec<KernelArg> = d.launch.args.into_iter().map(|(_, a)| a).collect();
    assert_eq!(
        args,
        vec![
            Buffer(BufferSlot::Rhs, 0),
            Buffer(BufferSlot::Lhs, 16),
            Buffer(BufferSlot::Output, 0),
            I64(256),
            I64(100),
            I64(1),
            I64(0),
            I64(0),
            I64(0),
            I64(256),
            I64(3),
            I64(1),
            I64(0),
            I64(0),
            I64(0),
            I64(100),
            I64(3),
            U32(1),
            U32(1),
        ]
    );
}

#[test]
fn quantized_layouts_and_names() {
    let cases = [
        (GgmlDType::Q4_0, "kernel_mul_mv_q4_0_f32", (8, 8), 8),
        (GgmlDType::Q8_1, "kernel_mul_mv_q8_1_f32", (8, 8), 8),
        (GgmlDType::Q2K, "kernel_mul_mv_q2_K_f32", (4, 8), 4),
        (GgmlDType::Q3K, "kernel_mul_mv_q3_K_f32", (2, 32), 4),
        (GgmlDType::Q5K, "kernel_mul_mv_q5_K_f32", (2, 32), 4),
        (GgmlDType::Q6K, "kernel_mul_mv_q6_K_f32", (2, 32), 2),
        (GgmlDType::Q8K, "kernel_mul_mv_q8_K_f32", (32, 1), 8),
        (GgmlDType::F16, "kernel_mul_mv_f16_f32", (32, 1), 8),
        (GgmlDType::F32, "kernel_mul_mv_f32_f32", (32, 1), 8),
    ];
    for (dtype, name, (nth0, nth1), align) in cases {
        let d = quantized_matmul_t(dtype, (2, 5, 33, 64), 0);
        assert_eq!(d.pipeline.name, name);
        assert_eq!(
            d.launch.grid,
            Grid::Fixed {
                groups: Size3 { width: (33 + align - 1) / align, height: 5, depth: 2 },
                threads: Size3 { width: nth0, height: nth1, depth: 1 },
            }
        );
    }
}
