use fast_fib::binary::binary_digits;
use fast_fib::{power, Carrier, Integer, Mat2x2, Z5};

#[test]
fn test_int_pow() {
    let bases: Vec<u64> = vec![3, 4, 2, 5, 10, 6];
    let exps: Vec<u32> = vec![8, 10, 17, 5, 1, 0];
    for (base, exp) in bases.into_iter().zip(exps) {
        assert_eq!(power(base, exp.into(), 1), base.pow(exp))
    }
}

#[test]
fn power_exact_values() {
    assert_eq!(power(3u64, 8, 1), 6561);
    assert_eq!(power(2u64, 17, 1), 131072);
    assert_eq!(power(2u64, 63, 1), 9223372036854775808);
    assert_eq!(power(7u64, 1, 1), 7);
}

#[test]
fn power_zero_is_identity() {
    for x in [0u64, 1, 2, 3, 1000, u64::MAX] {
        assert_eq!(power(x, 0, 1), 1);
    }
    let (a, c) = power(Mat2x2::fibonacci(), 0, Mat2x2::identity())
        .apply(&Integer::from(1), &Integer::from(0));
    assert_eq!((a, c), (Integer::from(1), Integer::from(0)));
    assert_eq!(power(Z5::new(1, 1), 0, Z5::one()).into_parts(), (Integer::from(2), Integer::from(0)));
}

#[test]
fn power_one_is_base() {
    for x in [0u64, 1, 2, 3, 1000, u64::MAX] {
        assert_eq!(power(x, 1, 1), x);
        assert_eq!(power(x, 1, 1), 1u64.combine(&x));
    }
    assert_eq!(power(Z5::new(1, 1), 1, Z5::one()).into_parts(), (Integer::from(1), Integer::from(1)));
}

#[test]
fn power_adds_exponents() {
    for x in [2u64, 3, 5, 10, 12345] {
        for a in 0u64..8 {
            for b in 0u64..8 {
                let whole = power(x, a + b, 1);
                let parts = power(x, a, 1).combine(&power(x, b, 1));
                assert_eq!(whole, parts);
            }
        }
    }
}

#[test]
fn power_wraps_on_words() {
    // 2^64 = 0 and 3^41 = 36472996377170786403 = 18026252303461234787 modulo 2^64
    assert_eq!(power(2u64, 64, 1), 0);
    assert_eq!(power(3u64, 41, 1), 18026252303461234787);
    assert_eq!(u64::MAX.combine(&u64::MAX), 1);
}

#[test]
fn matrix_product_and_identity() {
    let m = Mat2x2::fibonacci();
    let sq = m.combine(&m);
    // (1 1; 1 0)^2 = (2 1; 1 1)
    let (a, c) = sq.apply(&Integer::from(1), &Integer::from(0));
    let (b, d) = sq.apply(&Integer::from(0), &Integer::from(1));
    assert_eq!((a, b, c, d), (Integer::from(2), Integer::from(1), Integer::from(1), Integer::from(1)));
    let same = sq.combine(&Mat2x2::identity());
    let (x, y) = same.apply(&Integer::from(3), &Integer::from(5));
    // (2 1; 1 1) (3; 5) = (11; 8)
    assert_eq!((x, y), (Integer::from(11), Integer::from(8)));
}

fn pair(a: u64, b: u64) -> (Integer, Integer) {
    (Integer::from(a), Integer::from(b))
}

#[test]
fn z5_product_halves() {
    // (1 + sqrt 5)/2 * (3 + sqrt 5)/2 = (4 + 2 sqrt 5)/2
    assert_eq!(Z5::new(1, 1).combine(&Z5::new(3, 1)).into_parts(), pair(4, 2));
    // the identity is (2 + 0 sqrt 5)/2
    assert_eq!(Z5::new(7, 3).combine(&Z5::one()).into_parts(), pair(7, 3));
    assert_eq!(Z5::one().combine(&Z5::new(7, 3)).into_parts(), pair(7, 3));
    // (6 + 2 sqrt 5)/2 * (4 + 2 sqrt 5)/2 = (22 + 10 sqrt 5)/2
    assert_eq!(Z5::new(6, 2).combine(&Z5::new(4, 2)).into_parts(), pair(22, 10));
}

#[test]
fn z5_product_rounds_down_between_mixed_parities() {
    // (3 + 0 sqrt 5)/2 * (1 + 1 sqrt 5)/2 has the odd sums 3 and 3
    assert_eq!(Z5::new(3, 0).combine(&Z5::new(1, 1)).into_parts(), pair(1, 1));
    assert_eq!(Z5::new(1, 0).combine(&Z5::new(1, 0)).into_parts(), pair(0, 0));
}

#[test]
fn golden_ratio_powers_hold_lucas_and_fibonacci() {
    // L(10) = 123, F(10) = 55
    assert_eq!(power(Z5::new(1, 1), 10, Z5::one()).into_parts(), pair(123, 55));
    assert_eq!(power(Z5::new(1, 1), 2, Z5::one()).into_parts(), pair(3, 1));
}

#[test]
fn copies_hold_the_same_numbers() {
    let z = Z5::new(11, 5);
    assert_eq!(z.clone(), z);
    assert_eq!(z.clone().into_parts(), pair(11, 5));
    let m = Mat2x2::fibonacci().combine(&Mat2x2::fibonacci());
    assert_eq!(m.clone(), m);
    assert_eq!(m.clone().apply(&Integer::from(3), &Integer::from(5)), pair(11, 8));
    assert_eq!(Mat2x2::identity().apply(&Integer::from(3), &Integer::from(5)), pair(3, 5));
}

#[test]
fn binary_digits_lowest_first() {
    assert_eq!(binary_digits(0), Vec::<bool>::new());
    assert_eq!(binary_digits(1), vec![true]);
    assert_eq!(binary_digits(12), vec![false, false, true, true]);
    assert_eq!(binary_digits(37), vec![true, false, true, false, false, true]);
    assert_eq!(binary_digits(u64::MAX), vec![true; 64]);
}
