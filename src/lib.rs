//! An allocator that serves arbitrary `(size, alignment)` requests from a
//! byte allocator that gives no alignment guarantee.
//!
//! The address arithmetic (padding, alignment correction, the placement of
//! the back-reference footer) and the backing-name buffer are verified here.
//! The calls into the region primitive and the process-wide singleton stand
//! outside this library and hand it plain addresses.
pub mod placement;
pub mod region;

pub use placement::Placement;
pub use region::PSMAllocator;
