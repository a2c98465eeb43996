//! Arithmetic over the prime field of order `p = 2^64 - 2^32 + 1`.
//!
//! Several algorithms for addition and multiplication are offered side by
//! side; each one states the technique it relies on and the canonical value
//! it returns, and the `laws` module proves the identities that make the
//! variants interchangeable.
pub mod modulus;
pub mod std_specs;
pub mod addition;
pub mod multiplication;
pub mod laws;
pub mod sampling;

pub use modulus::{P128, P64};
pub use addition::{add, add_fast, add_winterfell};
pub use multiplication::{montgomery_equals, mul, mul_reduce159, mul_reduce_montgomery, reduce159, reduce_montgomery};
pub use sampling::random_elements;
