//! Exact Fibonacci numbers as arbitrary-precision integers, computed by
//! several logarithmic-time algorithms that are proved against the
//! recurrence `F(0) = 0`, `F(1) = 1`, `F(n) = F(n-1) + F(n-2)`.

pub mod bigint;
pub mod binary;
pub mod binet_z5;
pub mod cassini;
pub mod cassini_gmp;
pub mod dp_iterator;
pub mod fib_finder;
pub mod gmp;
pub mod mat_exponentiator;
pub mod memoized;
pub mod naive;
pub mod repeated_squaring;
pub mod sequence;

pub use binet_z5::{BinetZ5, Z5};
pub use cassini::Cassini;
pub use cassini_gmp::CassiniGMP;
pub use dp_iterator::DPIterator;
pub use fib_finder::{fib_by_both, FibFinder};
pub use gmp::GMP;
pub use mat_exponentiator::{Mat2x2, MatExponentiator};
pub use memoized::MemoizedRecursor;
pub use naive::NaiveRecursor;
pub use repeated_squaring::{power, Carrier};
pub use rug::Integer;
