//! Test-support toolkit: a deterministic byte source for reproducible
//! fixtures, a test-data directory locator driven by an environment
//! override with a validated fallback, and a deliberately untruthful
//! sequence producer used to probe consumers of size hints.

use vstd::prelude::*;

pub mod byte_source;
pub mod locator;
pub mod producer;

pub use crate::byte_source::random_bytes;
pub use crate::byte_source::seedable_rng;
pub use crate::locator::arrow_test_data;
pub use crate::locator::parquet_test_data;
pub use crate::locator::resolve_dir;
pub use crate::producer::BadIterator;

verus! {

} // verus!
