use tfc::median_filter::{bits_of_key, order_key, Median, MedianFilter};

fn value(key: u64) -> f64 {
    f64::from_bits(bits_of_key(key))
}

fn consume(mf: &mut MedianFilter, v: f64) -> f64 {
    match mf.consume(order_key(v.to_bits())) {
        Median::Empty => 0.0,
        Median::Odd(k) => value(k),
        Median::Even(a, b) => (value(a) + value(b)) / 2.0,
    }
}

#[test]
fn test_median_increasing_sequence() {
    let mut mf = MedianFilter::new(5);
    assert_eq!(consume(&mut mf, 1.0), 1.0);
    assert_eq!(consume(&mut mf, 2.0), 1.5);
    assert_eq!(consume(&mut mf, 3.0), 2.0);
    assert_eq!(consume(&mut mf, 4.0), 2.5);
    assert_eq!(consume(&mut mf, 5.0), 3.0);
    assert_eq!(consume(&mut mf, 6.0), 4.0);
}

#[test]
fn test_median_random_sequence() {
    let mut mf = MedianFilter::new(3);
    assert_eq!(consume(&mut mf, 10.0), 10.0);
    assert_eq!(consume(&mut mf, 1.0), 5.5);
    assert_eq!(consume(&mut mf, 5.0), 5.0);
    assert_eq!(consume(&mut mf, 3.0), 3.0);
}

#[test]
fn empty_filter_has_no_median() {
    let mf = MedianFilter::new(4);
    assert_eq!(mf.median(), Median::Empty);
}

#[test]
fn window_of_one_follows_the_last_value() {
    let mut mf = MedianFilter::new(1);
    assert_eq!(consume(&mut mf, 7.0), 7.0);
    assert_eq!(consume(&mut mf, -3.0), -3.0);
    assert_eq!(consume(&mut mf, 0.5), 0.5);
}

#[test]
fn duplicates_and_negative_values() {
    let mut mf = MedianFilter::new(4);
    assert_eq!(consume(&mut mf, -2.0), -2.0);
    assert_eq!(consume(&mut mf, -2.0), -2.0);
    assert_eq!(consume(&mut mf, 4.0), -2.0);
    assert_eq!(consume(&mut mf, 4.0), 1.0);
    // -2.0 leaves: window [-2, 4, 4, -8]
    assert_eq!(consume(&mut mf, -8.0), 1.0);
    // -2.0 leaves: window [4, 4, -8, 4]
    assert_eq!(consume(&mut mf, 4.0), 4.0);
}

#[test]
fn keys_order_as_floats_do() {
    let values: [f64; 8] = [-1.0e300, -2.5, -0.5, 0.0, 1.0e-300, 0.25, 3.0, 1.0e300];
    for pair in values.windows(2) {
        assert!(order_key(pair[0].to_bits()) < order_key(pair[1].to_bits()));
    }
    for v in values {
        assert_eq!(f64::from_bits(bits_of_key(order_key(v.to_bits()))), v);
    }
    assert_eq!(order_key(0), 0x8000_0000_0000_0000);
    assert_eq!(order_key(0x8000_0000_0000_0000), 0x7fff_ffff_ffff_ffff);
}
