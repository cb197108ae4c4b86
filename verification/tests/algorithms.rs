use fast_fib::{
    BinetZ5, Cassini, CassiniGMP, DPIterator, FibFinder, Integer, MatExponentiator,
    MemoizedRecursor, NaiveRecursor, GMP,
};
use rug::ops::Pow;

fn fib_1000() -> Integer {
    ("434665576869374564356885276750406258025646605173717804024817290895365554".to_owned()
        + "1794905189040387984007925516929592259308032263477520968962323987332247116164299"
        + "6440906533187938298969649928516003704476137795166849228875")
        .parse::<Integer>()
        .unwrap()
}

#[test]
fn mat_exponentiator_test_fib() {
    let mut alg = MatExponentiator::default();
    assert_eq!(alg.fib(0), 0);
    assert_eq!(alg.fib(1), 1);
    assert_eq!(alg.fib(2), 1);
    assert_eq!(alg.fib(12), 144);
    assert_eq!(alg.fib(37), 24157817);

    assert_eq!(
        alg.fib(100),
        "354224848179261915075".parse::<Integer>().unwrap()
    );

    assert_eq!(alg.fib(1000), fib_1000());

    assert_eq!(alg.fib(10000) % (Integer::from(10).pow(10)), 9947366875_u64);

    assert_eq!(
        alg.fib(100_000) % (Integer::from(10).pow(10)),
        3428746875_u64
    );

    assert_eq!(
        alg.fib(1_000_000) % (Integer::from(10).pow(10)),
        8242546875_u64
    );
}

#[test]
fn binet_z5_test_fib() {
    let mut alg = BinetZ5::default();
    assert_eq!(alg.fib(1), 1u64);
    assert_eq!(alg.fib(2), 1u64);
    assert_eq!(alg.fib(12), 144u64);
    assert_eq!(alg.fib(37), 24157817u64);

    assert_eq!(
        alg.fib(100),
        "354224848179261915075".parse::<Integer>().unwrap()
    );

    assert_eq!(alg.fib(1000), fib_1000());

    assert_eq!(
        alg.fib(10000) % (Integer::from(10u64).pow(10u32)),
        9947366875_u64
    );

    assert_eq!(
        alg.fib(100_000) % (Integer::from(10u64).pow(10u32)),
        3428746875_u64
    );

    assert_eq!(
        alg.fib(1_000_000) % (Integer::from(10u64).pow(10u32)),
        8242546875_u64
    );

    assert_eq!(
        alg.fib(10_000_000) % (Integer::from(10).pow(10)),
        6380546875_u64
    );

    assert_eq!(
        alg.fib(100_000_000) % (Integer::from(10).pow(10)),
        7760546875_u64
    );
}

#[test]
fn cassini_test_fib() {
    let mut alg = Cassini::default();
    assert_eq!(alg.fib(0), 0u32);
    assert_eq!(alg.fib(1), 1u32);
    assert_eq!(alg.fib(2), 1u32);
    assert_eq!(alg.fib(12), 144u32);
    assert_eq!(alg.fib(37), 24157817u64);

    assert_eq!(
        alg.fib(100),
        "354224848179261915075".parse::<Integer>().unwrap()
    );

    assert_eq!(alg.fib(1000), fib_1000());

    assert_eq!(alg.fib(10000) % (Integer::from(10).pow(10)), 9947366875_u64);

    assert_eq!(
        alg.fib(100_000) % (Integer::from(10).pow(10)),
        3428746875_u64
    );

    assert_eq!(
        alg.fib(1_000_000) % (Integer::from(10).pow(10)),
        8242546875_u64
    );

    assert_eq!(
        alg.fib(10_000_000) % (Integer::from(10).pow(10)),
        6380546875_u64
    );

    assert_eq!(
        alg.fib(100_000_000) % (Integer::from(10).pow(10)),
        7760546875_u64
    );
}

#[test]
fn cassini_gmp_test_fib() {
    let mut alg = CassiniGMP::default();
    assert_eq!(alg.fib(0), 0u32);
    assert_eq!(alg.fib(1), 1u32);
    assert_eq!(alg.fib(2), 1u32);
    assert_eq!(alg.fib(12), 144u32);
    assert_eq!(alg.fib(37), 24157817u64);

    assert_eq!(
        alg.fib(100),
        "354224848179261915075".parse::<Integer>().unwrap()
    );

    assert_eq!(alg.fib(1000), fib_1000());

    assert_eq!(alg.fib(10000) % (Integer::from(10).pow(10)), 9947366875_u64);

    assert_eq!(
        alg.fib(100_000) % (Integer::from(10).pow(10)),
        3428746875_u64
    );

    assert_eq!(
        alg.fib(1_000_000) % (Integer::from(10).pow(10)),
        8242546875_u64
    );

    assert_eq!(
        alg.fib(10_000_000) % (Integer::from(10).pow(10)),
        6380546875_u64
    );

    assert_eq!(
        alg.fib(100_000_000) % (Integer::from(10).pow(10)),
        7760546875_u64
    );

    assert_eq!(
        alg.fib(1_000_000_000) % (Integer::from(10).pow(10)),
        1560546875_u64
    );
}

#[test]
fn gmp_test_fib() {
    let mut alg = GMP::default();
    assert_eq!(alg.fib(0), 0u32);
    assert_eq!(alg.fib(1), 1u32);
    assert_eq!(alg.fib(2), 1u32);
    assert_eq!(alg.fib(12), 144u32);
    assert_eq!(alg.fib(37), 24157817u64);

    assert_eq!(
        alg.fib(100),
        "354224848179261915075".parse::<Integer>().unwrap()
    );

    assert_eq!(alg.fib(1000), fib_1000());

    assert_eq!(alg.fib(10000) % (Integer::from(10).pow(10)), 9947366875_u64);

    assert_eq!(
        alg.fib(100_000) % (Integer::from(10).pow(10)),
        3428746875_u64
    );

    assert_eq!(
        alg.fib(1_000_000) % (Integer::from(10).pow(10)),
        8242546875_u64
    );

    assert_eq!(
        alg.fib(10_000_000) % (Integer::from(10).pow(10)),
        6380546875_u64
    );

    assert_eq!(
        alg.fib(100_000_000) % (Integer::from(10).pow(10)),
        7760546875_u64
    );

    assert_eq!(
        alg.fib(1_000_000_000) % (Integer::from(10).pow(10)),
        1560546875_u64
    );
}

#[test]
fn dp_iterator_test_fib() {
    let mut alg = DPIterator::default();
    assert_eq!(alg.fib(0), 0);
    assert_eq!(alg.fib(1), 1);
    assert_eq!(alg.fib(2), 1);
    assert_eq!(alg.fib(12), 144);
    assert_eq!(alg.fib(37), 24157817);

    assert_eq!(
        alg.fib(100),
        "354224848179261915075".parse::<Integer>().unwrap()
    );

    assert_eq!(alg.fib(1000), fib_1000());

    assert_eq!(alg.fib(10000) % (Integer::from(10).pow(10)), 9947366875_u64);
}

#[test]
fn memoized_test_fib() {
    let mut alg = MemoizedRecursor::default();
    assert_eq!(alg.fib(0), 0);
    alg.clear();
    assert_eq!(alg.fib(1), 1);
    alg.clear();
    assert_eq!(alg.fib(2), 1);
    alg.clear();
    assert_eq!(alg.fib(12), 144);
    alg.clear();
    assert_eq!(alg.fib(37), 24157817);

    alg.clear();
    assert_eq!(
        alg.fib(100),
        "354224848179261915075".parse::<Integer>().unwrap()
    );

    alg.clear();
    assert_eq!(alg.fib(1000), fib_1000());
}

#[test]
fn naive_test_fib() {
    let mut alg = NaiveRecursor::default();
    assert_eq!(alg.fib(0), 0);
    assert_eq!(alg.fib(1), 1);
    assert_eq!(alg.fib(2), 1);
    assert_eq!(alg.fib(12), 144);
}
