use scap::coordinate::Coordinate;

fn c(value: f64) -> Coordinate {
    Coordinate::from_bits(value.to_bits())
}

fn samples() -> Vec<f64> {
    vec![
        0.0,
        -0.0,
        0.25,
        0.999,
        1.0,
        1.5,
        -1.5,
        2.0,
        255.9,
        65_535.5,
        4_294_967_295.0,
        4_294_967_296.5,
        4_503_599_627_370_496.0,
        9_007_199_254_740_993.0,
        1.0e18,
        1.8e19,
        1.9e19,
        1.0e300,
        -1.0e300,
        5.0e-324,
        -5.0e-324,
        f64::MAX,
        f64::INFINITY,
        f64::NEG_INFINITY,
        f64::NAN,
    ]
}

#[test]
fn integers_are_cut_as_casts_cut_them() {
    for value in samples() {
        assert_eq!(c(value).to_u64(), value as u64, "{value}");
        assert_eq!(c(value).to_u32(), value as u32, "{value}");
    }
}

#[test]
fn signs_and_finiteness_are_read_from_the_bits() {
    for value in samples() {
        assert_eq!(c(value).is_finite(), value.is_finite(), "{value}");
        assert_eq!(c(value).is_negative(), value < 0.0, "{value}");
        assert_eq!(c(value).is_positive(), value > 0.0, "{value}");
        assert_eq!(c(value).is_nan(), value.is_nan(), "{value}");
    }
}

#[test]
fn order_is_that_of_the_numbers() {
    for a in samples() {
        for b in samples() {
            assert_eq!(c(a).is_below(&c(b)), a < b, "{a} {b}");
            assert_eq!(c(a).is_at_least(&c(b)), a >= b, "{a} {b}");
        }
    }
}
