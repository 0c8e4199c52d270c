use candle_metal_kernels::grid::{divide, linear_split, next_power_of_two, Size3};
use candle_metal_kernels::launch::Grid;
use candle_metal_kernels::shape::{range_product, shape_elements};

fn size(width: u64, height: u64, depth: u64) -> Size3 {
    Size3 { width, height, depth }
}

#[test]
fn divide_rounds_up() {
    assert_eq!(divide(10, 4), 3);
    assert_eq!(divide(8, 4), 2);
    assert_eq!(divide(0, 5), 0);
    assert_eq!(divide(1, 40), 1);
    assert_eq!(divide(41, 40), 2);
}

#[test]
fn divide_covers_without_spare_group() {
    for m in 0..200usize {
        for b in 1..20usize {
            let q = divide(m, b) as usize;
            assert!(q * b >= m);
            assert!(q * b < m + b);
        }
    }
}

#[test]
fn linear_split_caps_group_at_limit() {
    assert_eq!(linear_split(1024, 3000), (size(3, 1, 1), size(1024, 1, 1)));
    assert_eq!(linear_split(1024, 2048), (size(2, 1, 1), size(1024, 1, 1)));
}

#[test]
fn linear_split_caps_group_at_length() {
    assert_eq!(linear_split(1024, 10), (size(1, 1, 1), size(10, 1, 1)));
    assert_eq!(linear_split(1, 5), (size(5, 1, 1), size(1, 1, 1)));
}

#[test]
fn linear_split_covers_every_thread() {
    for max in [1u64, 3, 32, 256, 1024] {
        for length in 1..3000usize {
            let (count, group) = linear_split(max, length);
            let (c, w) = (count.width as usize, group.width as usize);
            assert!(w as u64 <= max && w <= length);
            assert!(c * w >= length);
            assert!((c - 1) * w < length);
        }
    }
}

#[test]
fn next_power_of_two_values() {
    assert_eq!(next_power_of_two(0), 1);
    assert_eq!(next_power_of_two(1), 1);
    assert_eq!(next_power_of_two(5), 8);
    assert_eq!(next_power_of_two(1024), 1024);
    assert_eq!(next_power_of_two(1025), 2048);
    assert_eq!(next_power_of_two(1 << 63), 1 << 63);
    assert_eq!(next_power_of_two((1 << 62) + 1), 1 << 63);
}

#[test]
fn next_power_of_two_is_least() {
    for x in 0..5000u64 {
        let p = next_power_of_two(x);
        assert_eq!(p, x.next_power_of_two());
        assert!(p.is_power_of_two() && p >= x);
        assert!(p == 1 || p / 2 < x);
    }
}

#[test]
fn shape_products() {
    assert_eq!(shape_elements(&[2, 3, 4]), 24);
    assert_eq!(shape_elements(&[]), 1);
    assert_eq!(shape_elements(&[7, 0, 3]), 0);
    assert_eq!(range_product(&[2, 3, 4, 5], 1, 3), 12);
    assert_eq!(range_product(&[2, 3, 4, 5], 2, 2), 1);
}

#[test]
fn grid_linear_dims() {
    let g = Grid::Linear(3000);
    assert!(g.fits(1024));
    assert_eq!(g.dims(1024), (size(3, 1, 1), size(1024, 1, 1)));
}

#[test]
fn grid_linear_of_nothing_does_not_fit() {
    assert!(!Grid::Linear(0).fits(1024));
    assert!(!Grid::Linear(10).fits(0));
}

#[test]
fn grid_per_output_dims() {
    let g = Grid::PerOutput { outputs: 10, span: 700 };
    assert!(g.fits(1024));
    assert_eq!(g.dims(1024), (size(10, 1, 1), size(1024, 1, 1)));
    assert_eq!(g.dims(256), (size(10, 1, 1), size(256, 1, 1)));
    assert_eq!(Grid::PerOutput { outputs: 4, span: 3 }.dims(1024), (size(4, 1, 1), size(4, 1, 1)));
    assert_eq!(Grid::PerOutput { outputs: 4, span: 0 }.dims(1024), (size(4, 1, 1), size(1, 1, 1)));
    assert_eq!(Grid::PerOutput { outputs: 4, span: 700 }.dims(1000), (size(4, 1, 1), size(1024, 1, 1)));
}

#[test]
fn grid_per_output_too_wide_does_not_fit() {
    assert!(!Grid::PerOutput { outputs: 1, span: u64::MAX }.fits(u64::MAX));
    assert!(Grid::PerOutput { outputs: 1, span: u64::MAX }.fits(1024));
}

#[test]
fn grid_fixed_dims() {
    let g = Grid::Fixed { groups: size(2, 3, 4), threads: size(32, 1, 1) };
    assert!(g.fits(1));
    assert_eq!(g.dims(1), (size(2, 3, 4), size(32, 1, 1)));
}
