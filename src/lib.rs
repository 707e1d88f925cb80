//! Append-only vectors that hand out a stable index for every element.
//!
//! Storage is a fixed primary region followed by lazily allocated overflow
//! buckets; `settle` compacts everything into the primary region.
//!
//! - `append_vec::AppendVec`: every index below `len()` is readable; for
//!   element types with a default value, which fills fresh slots.
//! - `safe_vec::SafeVec`: any element type; slots are tagged empty or full,
//!   and readers see only a published prefix, which grows in index order as
//!   handed-out entries are released.
//! - `tagged_vec::TaggedVec`: any element type; slots are tagged empty or
//!   full, `len()` counts every index handed out, and iteration stops at the
//!   first empty slot.
//!
//! Every change takes `&mut self`, so index allocation and compaction never
//! overlap; to insert from several threads, share the vector behind a lock.

pub mod segments;
pub mod append_vec;
pub mod safe_vec;
pub mod tagged_vec;
pub mod laws;
