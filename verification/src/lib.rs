//! A self-managed byte-buffer primitive: an owned, growable byte allocation
//! with a cursor, a byte-order tag, a corruption flag, and a versioned
//! ticket protocol that serializes conflicting readers and writers.

pub mod hypervec;
pub mod impls;
pub mod partition_map;
pub mod results;
pub mod util;
