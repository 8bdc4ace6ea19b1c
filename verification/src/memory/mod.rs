//! Memory optimisation utilities: string interning, a bounded cache with
//! scored eviction, and a pool of reusable vectors.

pub mod cache;
pub mod intern;
pub mod pool;
