use candle_metal_kernels::grid::Size3;
use candle_metal_kernels::launch::{BufferSlot, FloatSlot, Grid, KernelArg, Usage};
use candle_metal_kernels::ops;
use candle_metal_kernels::source::Source;
use candle_metal_kernels::Dispatch;

use BufferSlot::{Cond, Ids, Input, Left, Output, Right, Seed};
use KernelArg::{Buffer, Dims, Float, USize};

fn args(d: &Dispatch) -> Vec<KernelArg> {
    d.launch
        .args
        .iter()
        .enumerate()
        .map(|(i, (index, arg))| {
            assert_eq!(*index, i as u64);
            match arg {
                USize(v) => USize(*v),
                KernelArg::I64(v) => KernelArg::I64(*v),
                KernelArg::U32(v) => KernelArg::U32(*v),
                Dims(v) => Dims(v.clone()),
                Buffer(b, o) => Buffer(*b, *o),
                Float(f) => Float(*f),
                KernelArg::BatchStrides(a, b, c, e) => KernelArg::BatchStrides(*a, *b, *c, *e),
            }
        })
        .collect()
}

fn io() -> Vec<(BufferSlot, Usage)> {
    vec![(Input, Usage::Read), (Output, Usage::Write)]
}

fn check_plain(d: &Dispatch, source: Source, name: &str, resources: Vec<(BufferSlot, Usage)>, grid: Grid) {
    assert_eq!(d.pipeline.source, source);
    assert_eq!(d.pipeline.name, name);
    assert!(d.pipeline.constants.is_none());
    assert_eq!(d.launch.resources, resources);
    assert_eq!(d.launch.threadgroup_memory, None);
    assert_eq!(d.launch.grid, grid);
}

#[test]
fn unary_contiguous_plan() {
    let d = ops::unary_contiguous("cos_f32", 100);
    check_plain(&d, Source::Unary, "cos_f32", io(), Grid::Linear(100));
    assert_eq!(args(&d), vec![USize(100), Buffer(Input, 0), Buffer(Output, 0)]);
}

#[test]
fn unary_strided_plan() {
    let d = ops::unary_strided("exp_f16_strided", &[2, 3, 4], &[12, 4, 1], 8, 16);
    check_plain(&d, Source::Unary, "exp_f16_strided", io(), Grid::Linear(24));
    assert_eq!(
        args(&d),
        vec![USize(24), USize(3), Dims(vec![2, 3, 4]), Dims(vec![12, 4, 1]), Buffer(Input, 8), Buffer(Output, 16)]
    );
}

#[test]
fn binary_contiguous_plan() {
    let d = ops::binary_contiguous("add_f32", 7);
    let res = vec![(Left, Usage::Read), (Right, Usage::Read), (Output, Usage::Write)];
    check_plain(&d, Source::Binary, "add_f32", res, Grid::Linear(7));
    assert_eq!(args(&d), vec![USize(7), Buffer(Left, 0), Buffer(Right, 0), Buffer(Output, 0)]);
}

#[test]
fn binary_strided_plan() {
    let d = ops::binary_strided("mul_u8_strided", &[3, 5], &[5, 1], 2, &[0, 1], 4);
    let res = vec![(Left, Usage::Read), (Right, Usage::Read), (Output, Usage::Write)];
    check_plain(&d, Source::Binary, "mul_u8_strided", res, Grid::Linear(15));
    assert_eq!(
        args(&d),
        vec![
            USize(15),
            USize(2),
            Dims(vec![3, 5]),
            Dims(vec![5, 1]),
            Dims(vec![0, 1]),
            Buffer(Left, 2),
            Buffer(Right, 4),
            Buffer(Output, 0),
        ]
    );
}

#[test]
fn cast_plans() {
    let d = ops::cast_contiguous("cast_u32_f32", 9, 3);
    check_plain(&d, Source::Cast, "cast_u32_f32", io(), Grid::Linear(9));
    assert_eq!(args(&d), vec![USize(9), Buffer(Input, 3), Buffer(Output, 0)]);
    let d = ops::cast_strided("cast_u32_f32_strided", &[4, 2], &[1, 4], 5);
    check_plain(&d, Source::Cast, "cast_u32_f32_strided", io(), Grid::Linear(8));
    assert_eq!(
        args(&d),
        vec![USize(8), USize(2), Dims(vec![4, 2]), Dims(vec![1, 4]), Buffer(Input, 5), Buffer(Output, 0)]
    );
}

#[test]
fn reduce_contiguous_plan() {
    let d = ops::reduce_contiguous("fast_sum_f32", 1000, 10, 0);
    check_plain(&d, Source::Reduce, "fast_sum_f32", io(), Grid::PerOutput { outputs: 10, span: 50 });
    assert_eq!(args(&d), vec![USize(1000), USize(100), Buffer(Input, 0), Buffer(Output, 0)]);
    assert_eq!(d.launch.grid.dims(1024).1.width, 64);
    let d = ops::reduce_contiguous("fast_sum_f32", 7, 1, 0);
    assert_eq!(d.launch.grid, Grid::PerOutput { outputs: 1, span: 4 });
}

#[test]
fn reduce_strided_plan() {
    let d = ops::reduce_strided("fast_max_f32_strided", &[4, 6], &[1, 4], 4, 12);
    check_plain(&d, Source::Reduce, "fast_max_f32_strided", io(), Grid::PerOutput { outputs: 4, span: 6 });
    assert_eq!(
        args(&d),
        vec![USize(2), Dims(vec![4, 6]), Dims(vec![1, 4]), USize(6), Buffer(Input, 12), Buffer(Output, 0)]
    );
    assert_eq!(d.launch.grid.dims(1024), (Size3 { width: 4, height: 1, depth: 1 }, Size3 { width: 8, height: 1, depth: 1 }));
}

#[test]
fn last_softmax_plan() {
    let d = ops::last_softmax("softmax_f32", 60, 12, 4);
    check_plain(&d, Source::Reduce, "softmax_f32", io(), Grid::PerOutput { outputs: 5, span: 12 });
    assert_eq!(args(&d), vec![USize(60), USize(12), Buffer(Input, 4), Buffer(Output, 0)]);
}

#[test]
fn affine_plans() {
    let d = ops::affine("affine_f32", 10);
    check_plain(&d, Source::Affine, "affine_f32", io(), Grid::Linear(10));
    assert_eq!(
        args(&d),
        vec![USize(10), Float(FloatSlot::Mul), Float(FloatSlot::Add), Buffer(Input, 0), Buffer(Output, 0)]
    );
    let d = ops::affine_strided("affine_f32_strided", &[2, 5], &[5, 1], 1);
    check_plain(&d, Source::Affine, "affine_f32_strided", io(), Grid::Linear(10));
    assert_eq!(
        args(&d),
        vec![
            USize(10),
            USize(2),
            Dims(vec![2, 5]),
            Dims(vec![5, 1]),
            Float(FloatSlot::Mul),
            Float(FloatSlot::Add),
            Buffer(Input, 1),
            Buffer(Output, 0),
        ]
    );
}

#[test]
fn powf_and_elu_plans() {
    let d = ops::scaled("powf_f32", 6);
    check_plain(&d, Source::Affine, "powf_f32", io(), Grid::Linear(6));
    assert_eq!(args(&d), vec![USize(6), Float(FloatSlot::Mul), Buffer(Input, 0), Buffer(Output, 0)]);
    let d = ops::scaled_strided("elu_f32_strided", &[3, 2], &[2, 1], 0);
    check_plain(&d, Source::Affine, "elu_f32_strided", io(), Grid::Linear(6));
    assert_eq!(
        args(&d),
        vec![
            USize(6),
            USize(2),
            Dims(vec![3, 2]),
            Dims(vec![2, 1]),
            Float(FloatSlot::Mul),
            Buffer(Input, 0),
            Buffer(Output, 0),
        ]
    );
}

#[test]
fn where_cond_plan() {
    let d = ops::where_cond_strided("where_u8_f32", &[2, 2], (&[2, 1], 0), (&[0, 1], 1), (&[2, 1], 2));
    let res = vec![(Cond, Usage::Read), (Left, Usage::Read), (Right, Usage::Read), (Output, Usage::Write)];
    check_plain(&d, Source::Ternary, "where_u8_f32", res, Grid::Linear(4));
    assert_eq!(
        args(&d),
        vec![
            USize(4),
            USize(2),
            Dims(vec![2, 2]),
            Dims(vec![2, 1]),
            Dims(vec![0, 1]),
            Dims(vec![2, 1]),
            Buffer(Cond, 0),
            Buffer(Left, 1),
            Buffer(Right, 2),
            Buffer(Output, 0),
        ]
    );
}

fn indexed() -> Vec<(BufferSlot, Usage)> {
    vec![(Input, Usage::Read), (Ids, Usage::Read), (Output, Usage::Write)]
}

#[test]
fn index_select_plan() {
    let d = ops::index_select("is_u32_f32", &[4, 5, 6], 3, 1);
    check_plain(&d, Source::Indexing, "is_u32_f32", indexed(), Grid::Linear(72));
    assert_eq!(
        args(&d),
        vec![USize(72), USize(4), USize(5), USize(6), USize(3), Buffer(Input, 0), Buffer(Ids, 0), Buffer(Output, 0)]
    );
    let d = ops::index_select("is_u32_f32", &[4, 5, 6], 2, 0);
    assert_eq!(args(&d)[..4], [USize(60), USize(1), USize(4), USize(30)]);
    let d = ops::index_select("is_u32_f32", &[4, 5, 6], 2, 2);
    assert_eq!(args(&d)[..4], [USize(40), USize(20), USize(6), USize(1)]);
}

#[test]
fn gather_plan() {
    let d = ops::gather("gather_u32_f32", &[3, 4], 2, 1, 8, 16);
    check_plain(&d, Source::Indexing, "gather_u32_f32", indexed(), Grid::Linear(6));
    assert_eq!(
        args(&d),
        vec![USize(6), USize(3), USize(4), USize(1), USize(2), Buffer(Input, 8), Buffer(Ids, 16), Buffer(Output, 0)]
    );
}

#[test]
fn scatter_add_plan() {
    let d = ops::scatter_add("sa_u32_f32", &[3, 4, 2], &[3, 7, 2], 1, 0, 4);
    check_plain(&d, Source::Indexing, "sa_u32_f32", indexed(), Grid::Linear(6));
    assert_eq!(
        args(&d),
        vec![USize(6), USize(3), USize(4), USize(2), USize(7), Buffer(Input, 0), Buffer(Ids, 4), Buffer(Output, 0)]
    );
}

#[test]
fn index_add_plan() {
    let d = ops::index_add("ia_u32_f32", &[3, 4, 2], &[3, 7, 2], &[4], 1, 0, 4);
    check_plain(&d, Source::Indexing, "ia_u32_f32", indexed(), Grid::Linear(6));
    assert_eq!(
        args(&d),
        vec![
            USize(6),
            USize(3),
            USize(4),
            USize(2),
            USize(7),
            USize(4),
            Buffer(Input, 0),
            Buffer(Ids, 4),
            Buffer(Output, 0),
        ]
    );
}

#[test]
fn im2col1d_plan() {
    let d = ops::im2col1d_strided("im2col1d_f32", &[1, 2, 10], &[20, 10, 1], (3, 1, 0, 1), 0);
    check_plain(&d, Source::Conv, "im2col1d_f32", io(), Grid::Linear(48));
    assert_eq!(
        args(&d),
        vec![
            USize(48),
            USize(8),
            USize(3),
            USize(1),
            USize(0),
            USize(1),
            Dims(vec![1, 2, 10]),
            Dims(vec![20, 10, 1]),
            Buffer(Input, 0),
            Buffer(Output, 0),
        ]
    );
    // stride 2, padding 1, dilation 2: (10 + 2 - 4 - 1) / 2 + 1 = 4
    let d = ops::im2col1d_strided("im2col1d_f32", &[2, 3, 10], &[30, 10, 1], (3, 2, 1, 2), 0);
    assert_eq!(args(&d)[..2], [USize(2 * 4 * 3 * 3), USize(4)]);
}

#[test]
fn im2col_plan() {
    let d = ops::im2col_strided("im2col_f32", &[1, 3, 5, 5], &[75, 25, 5, 1], (3, 3, 1, 1, 1), 0);
    check_plain(&d, Source::Conv, "im2col_f32", io(), Grid::Linear(675));
    assert_eq!(
        args(&d),
        vec![
            USize(675),
            USize(5),
            USize(5),
            USize(3),
            USize(3),
            USize(1),
            USize(1),
            USize(1),
            Dims(vec![1, 3, 5, 5]),
            Dims(vec![75, 25, 5, 1]),
            Buffer(Input, 0),
            Buffer(Output, 0),
        ]
    );
    let d = ops::im2col_strided("im2col_f32", &[2, 1, 8, 6], &[48, 48, 6, 1], (2, 3, 2, 0, 1), 0);
    // h_out = (8 - 1 - 1) / 2 + 1 = 4, w_out = (6 - 2 - 1) / 2 + 1 = 2
    assert_eq!(args(&d)[..3], [USize(2 * 4 * 2 * 1 * 2 * 3), USize(4), USize(2)]);
}

#[test]
fn upsample_plan() {
    let d = ops::upsample_nearest_2d("upsample_nearest2d_f32", &[2, 3, 4, 4], &[48, 16, 4, 1], 8, 6, 0);
    check_plain(&d, Source::Conv, "upsample_nearest2d_f32", io(), Grid::Linear(288));
    assert_eq!(
        args(&d),
        vec![
            USize(8),
            USize(6),
            Float(FloatSlot::ScaleW),
            Float(FloatSlot::ScaleH),
            Dims(vec![2, 3, 4, 4]),
            Dims(vec![48, 16, 4, 1]),
            Buffer(Input, 0),
            Buffer(Output, 0),
        ]
    );
}

#[test]
fn random_plans() {
    let seeded = vec![(Seed, Usage::Read), (Seed, Usage::Write), (Output, Usage::Write)];
    let d = ops::random_uniform("rand_uniform_f32", 7);
    check_plain(&d, Source::Random, "rand_uniform_f32", seeded.clone(), Grid::Linear(4));
    assert_eq!(
        args(&d),
        vec![USize(7), Float(FloatSlot::Min), Float(FloatSlot::Max), Buffer(Seed, 0), Buffer(Output, 0)]
    );
    let d = ops::random_normal("rand_normal_f32", 8);
    check_plain(&d, Source::Random, "rand_normal_f32", seeded, Grid::Linear(4));
    assert_eq!(
        args(&d),
        vec![USize(8), Float(FloatSlot::Mean), Float(FloatSlot::Stddev), Buffer(Seed, 0), Buffer(Output, 0)]
    );
    assert_eq!(ops::random_uniform("rand_uniform_f32", 1).launch.grid, Grid::Linear(1));
}
